use meow_simulator::install::{
    held_by_other, install_steps, is_dll, prepare_temp, should_query_holders, startup,
    uninstall_entry, uninstall_steps, uninstaller_steps, InstallStep, RegistryData,
    RegistryValue, RemovalStep, Shortcut, Startup, TempPrep,
};
use meow_simulator::uninstall::{confirmed, ANSWER_YES};

#[test]
fn install_with_both_shortcuts() {
    assert_eq!(
        install_steps(true, true, true, true),
        vec![
            InstallStep::CopyFiles,
            InstallStep::WriteRegistry,
            InstallStep::CreateShortcut(Shortcut::Desktop),
            InstallStep::CreateProgramsDir,
            InstallStep::CreateShortcut(Shortcut::StartMenu),
        ]
    );
}

#[test]
fn install_without_shortcuts() {
    let bare = vec![InstallStep::CopyFiles, InstallStep::WriteRegistry];
    assert_eq!(install_steps(false, false, true, true), bare);
    assert_eq!(install_steps(true, true, false, false), bare);
    assert_eq!(
        install_steps(false, true, true, true),
        vec![
            InstallStep::CopyFiles,
            InstallStep::WriteRegistry,
            InstallStep::CreateProgramsDir,
            InstallStep::CreateShortcut(Shortcut::StartMenu),
        ]
    );
}

#[test]
fn uninstall_removes_everything() {
    assert_eq!(
        uninstall_steps(true, true),
        vec![
            RemovalStep::RemoveShortcut(Shortcut::Desktop),
            RemovalStep::RemoveShortcut(Shortcut::StartMenu),
            RemovalStep::DeleteRegistryKey,
            RemovalStep::RemoveInstallDir,
        ]
    );
    assert_eq!(
        uninstall_steps(false, true),
        vec![
            RemovalStep::RemoveShortcut(Shortcut::StartMenu),
            RemovalStep::DeleteRegistryKey,
            RemovalStep::RemoveInstallDir,
        ]
    );
}

#[test]
fn uninstaller_schedules_delete() {
    assert_eq!(
        uninstaller_steps(true, false),
        vec![
            RemovalStep::RemoveShortcut(Shortcut::Desktop),
            RemovalStep::DeleteRegistryKey,
            RemovalStep::ScheduleInstallDirDelete,
        ]
    );
}

#[test]
fn every_created_shortcut_is_removed() {
    for desktop in [false, true] {
        for startmenu in [false, true] {
            for hd in [false, true] {
                for hdd in [false, true] {
                    let created: Vec<Shortcut> = install_steps(desktop, startmenu, hd, hdd)
                        .into_iter()
                        .filter_map(|s| match s {
                            InstallStep::CreateShortcut(k) => Some(k),
                            _ => None,
                        })
                        .collect();
                    let removed = uninstall_steps(hd, hdd);
                    for k in created {
                        assert!(removed.contains(&RemovalStep::RemoveShortcut(k)));
                    }
                }
            }
        }
    }
}

#[test]
fn registry_entry_values() {
    let v = uninstall_entry("C:\\Meow", "C:\\Meow\\MeowSimulatorRust.exe", "C:\\Meow\\installer.exe");
    let text = |name: &'static str, t: &str| RegistryValue { name, data: RegistryData::Text(t.to_string()) };
    assert_eq!(
        v,
        vec![
            text("DisplayName", "Meow Simulator"),
            text("Publisher", "wzium"),
            text("InstallLocation", "C:\\Meow"),
            text("DisplayIcon", "C:\\Meow\\MeowSimulatorRust.exe"),
            text("UninstallString", "C:\\Meow\\installer.exe"),
            RegistryValue { name: "NoModify", data: RegistryData::Number(1) },
            RegistryValue { name: "NoRepair", data: RegistryData::Number(1) },
        ]
    );
}

#[test]
fn relaunch_only_from_inside_install() {
    assert_eq!(startup(false, true), Startup::RelaunchFromTemp);
    assert_eq!(startup(true, true), Startup::OpenWizard);
    assert_eq!(startup(false, false), Startup::OpenWizard);
    assert_eq!(startup(true, false), Startup::OpenWizard);
}

#[test]
fn temp_dir_preparation() {
    assert_eq!(prepare_temp(false, false), TempPrep::Fresh);
    assert_eq!(prepare_temp(false, true), TempPrep::Fresh);
    assert_eq!(prepare_temp(true, true), TempPrep::AlreadyRunning);
    assert_eq!(prepare_temp(true, false), TempPrep::ReplaceOld);
}

#[test]
fn lock_query_needs_files() {
    assert!(!should_query_holders(false, 3));
    assert!(!should_query_holders(true, 0));
    assert!(should_query_holders(true, 1));
}

#[test]
fn other_holders_lock_the_files() {
    assert!(!held_by_other(&None, 7));
    assert!(!held_by_other(&Some(vec![]), 7));
    assert!(!held_by_other(&Some(vec![7, 7]), 7));
    assert!(held_by_other(&Some(vec![7, 8]), 7));
    assert!(held_by_other(&Some(vec![1]), 7));
}

#[test]
fn only_dll_extension_counts() {
    assert!(is_dll(Some("dll".to_string())));
    assert!(!is_dll(Some("DLL".to_string())));
    assert!(!is_dll(Some("dlls".to_string())));
    assert!(!is_dll(Some("".to_string())));
    assert!(!is_dll(None));
}

#[test]
fn only_yes_confirms() {
    assert_eq!(ANSWER_YES, 6);
    assert!(confirmed(6));
    assert!(!confirmed(7));
    assert!(!confirmed(0));
}
