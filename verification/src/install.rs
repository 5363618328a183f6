use vstd::prelude::*;

verus! {

/// The two shortcuts to the program that the installer may create.
#[derive(Debug, Clone, Copy, PartialEq, Eq, Structural)]
pub enum Shortcut {
    /// `Meow Simulator.lnk` on the desktop.
    Desktop,
    /// `Meow Simulator.lnk` in the start menu's Programs folder.
    StartMenu,
}

/// One step of an install, done in order.
#[derive(Debug, Clone, Copy, PartialEq, Eq, Structural)]
pub enum InstallStep {
    /// Copy the program's directory into the install directory; if it fails,
    /// the install stops there with that error.
    CopyFiles,
    /// Write the uninstall entry into the registry (errors ignored).
    WriteRegistry,
    /// Create the start menu's Programs folder (errors ignored).
    CreateProgramsDir,
    /// Create a shortcut to the installed program (errors ignored).
    CreateShortcut(Shortcut),
}

/// One step of taking the program away, done in order.
#[derive(Debug, Clone, Copy, PartialEq, Eq, Structural)]
pub enum RemovalStep {
    /// Delete a shortcut (errors ignored).
    RemoveShortcut(Shortcut),
    /// Delete the uninstall entry from the registry (errors ignored).
    DeleteRegistryKey,
    /// Delete the install directory now; its result is the uninstall's result.
    RemoveInstallDir,
    /// Have the install directory deleted two seconds from now, by a shell that
    /// outlives this process.
    ScheduleInstallDirDelete,
}

/// The steps of an install: copy, register, then each shortcut that was asked
/// for and whose folder the platform names.
pub open spec fn install_plan(
    desktop: bool,
    startmenu: bool,
    has_desktop_dir: bool,
    has_data_dir: bool,
) -> Seq<InstallStep> {
    seq![InstallStep::CopyFiles, InstallStep::WriteRegistry] + (if desktop && has_desktop_dir {
        seq![InstallStep::CreateShortcut(Shortcut::Desktop)]
    } else {
        Seq::empty()
    }) + (if startmenu && has_data_dir {
        seq![InstallStep::CreateProgramsDir, InstallStep::CreateShortcut(Shortcut::StartMenu)]
    } else {
        Seq::empty()
    })
}

/// The shortcut removals that go before the rest of a removal: each shortcut
/// whose folder the platform names.
pub open spec fn shortcut_removals(has_desktop_dir: bool, has_data_dir: bool) -> Seq<RemovalStep> {
    (if has_desktop_dir {
        seq![RemovalStep::RemoveShortcut(Shortcut::Desktop)]
    } else {
        Seq::empty()
    }) + (if has_data_dir {
        seq![RemovalStep::RemoveShortcut(Shortcut::StartMenu)]
    } else {
        Seq::empty()
    })
}

/// The steps of the installer's uninstall: shortcuts, registry entry, then the
/// install directory itself.
pub open spec fn uninstall_plan(has_desktop_dir: bool, has_data_dir: bool) -> Seq<RemovalStep> {
    shortcut_removals(has_desktop_dir, has_data_dir) + seq![
        RemovalStep::DeleteRegistryKey,
        RemovalStep::RemoveInstallDir,
    ]
}

/// The steps of the stand-alone uninstaller: shortcuts, registry entry, then a
/// delayed delete of the install directory.
pub open spec fn uninstaller_plan(has_desktop_dir: bool, has_data_dir: bool) -> Seq<RemovalStep> {
    shortcut_removals(has_desktop_dir, has_data_dir) + seq![
        RemovalStep::DeleteRegistryKey,
        RemovalStep::ScheduleInstallDirDelete,
    ]
}

fn push_shortcut_removals(steps: &mut Vec<RemovalStep>, has_desktop_dir: bool, has_data_dir: bool)
    ensures
        final(steps)@ == old(steps)@ + shortcut_removals(has_desktop_dir, has_data_dir),
{
    let ghost before = steps@;
    if has_desktop_dir {
        steps.push(RemovalStep::RemoveShortcut(Shortcut::Desktop));
    }
    if has_data_dir {
        steps.push(RemovalStep::RemoveShortcut(Shortcut::StartMenu));
    }
    assert(steps@ =~= before + shortcut_removals(has_desktop_dir, has_data_dir));
}

/// The steps of an install into a chosen directory.
pub fn install_steps(desktop: bool, startmenu: bool, has_desktop_dir: bool, has_data_dir: bool) -> (steps: Vec<InstallStep>)
    ensures
        steps@ == install_plan(desktop, startmenu, has_desktop_dir, has_data_dir),
{
    let mut steps = vec![InstallStep::CopyFiles, InstallStep::WriteRegistry];
    if desktop && has_desktop_dir {
        steps.push(InstallStep::CreateShortcut(Shortcut::Desktop));
    }
    if startmenu && has_data_dir {
        steps.push(InstallStep::CreateProgramsDir);
        steps.push(InstallStep::CreateShortcut(Shortcut::StartMenu));
    }
    assert(steps@ =~= install_plan(desktop, startmenu, has_desktop_dir, has_data_dir));
    steps
}

/// The steps of the installer's uninstall.
pub fn uninstall_steps(has_desktop_dir: bool, has_data_dir: bool) -> (steps: Vec<RemovalStep>)
    ensures
        steps@ == uninstall_plan(has_desktop_dir, has_data_dir),
{
    let mut steps = Vec::new();
    push_shortcut_removals(&mut steps, has_desktop_dir, has_data_dir);
    steps.push(RemovalStep::DeleteRegistryKey);
    steps.push(RemovalStep::RemoveInstallDir);
    assert(steps@ =~= uninstall_plan(has_desktop_dir, has_data_dir));
    steps
}

/// The steps of the stand-alone uninstaller, once the user has said yes.
pub fn uninstaller_steps(has_desktop_dir: bool, has_data_dir: bool) -> (steps: Vec<RemovalStep>)
    ensures
        steps@ == uninstaller_plan(has_desktop_dir, has_data_dir),
{
    let mut steps = Vec::new();
    push_shortcut_removals(&mut steps, has_desktop_dir, has_data_dir);
    steps.push(RemovalStep::DeleteRegistryKey);
    steps.push(RemovalStep::ScheduleInstallDirDelete);
    assert(steps@ =~= uninstaller_plan(has_desktop_dir, has_data_dir));
    steps
}

/// Whatever an install leaves behind, both ways of uninstalling take away (with
/// the platform naming the same folders): every shortcut it creates, its
/// registry entry and its directory.
pub proof fn uninstall_undoes_install(
    desktop: bool,
    startmenu: bool,
    has_desktop_dir: bool,
    has_data_dir: bool,
    s: Shortcut,
)
    ensures
        install_plan(desktop, startmenu, has_desktop_dir, has_data_dir).contains(
            InstallStep::CreateShortcut(s),
        ) ==> uninstall_plan(has_desktop_dir, has_data_dir).contains(RemovalStep::RemoveShortcut(s))
            && uninstaller_plan(has_desktop_dir, has_data_dir).contains(
            RemovalStep::RemoveShortcut(s),
        ),
        uninstall_plan(has_desktop_dir, has_data_dir).contains(RemovalStep::DeleteRegistryKey),
        uninstall_plan(has_desktop_dir, has_data_dir).contains(RemovalStep::RemoveInstallDir),
        uninstaller_plan(has_desktop_dir, has_data_dir).contains(RemovalStep::DeleteRegistryKey),
        uninstaller_plan(has_desktop_dir, has_data_dir).contains(
            RemovalStep::ScheduleInstallDirDelete,
        ),
{
    let ip = install_plan(desktop, startmenu, has_desktop_dir, has_data_dir);
    let up = uninstall_plan(has_desktop_dir, has_data_dir);
    let xp = uninstaller_plan(has_desktop_dir, has_data_dir);
    let r = shortcut_removals(has_desktop_dir, has_data_dir);
    assert(up[r.len() as int] == RemovalStep::DeleteRegistryKey);
    assert(up[r.len() as int + 1] == RemovalStep::RemoveInstallDir);
    assert(xp[r.len() as int] == RemovalStep::DeleteRegistryKey);
    assert(xp[r.len() as int + 1] == RemovalStep::ScheduleInstallDirDelete);
    if ip.contains(InstallStep::CreateShortcut(s)) {
        let i = choose|i: int| 0 <= i < ip.len() && ip[i] == InstallStep::CreateShortcut(s);
        match s {
            Shortcut::Desktop => {
                assert(desktop && has_desktop_dir);
                assert(up[0] == RemovalStep::RemoveShortcut(s));
                assert(xp[0] == RemovalStep::RemoveShortcut(s));
            },
            Shortcut::StartMenu => {
                assert(startmenu && has_data_dir);
                let j = r.len() as int - 1;
                assert(up[j] == RemovalStep::RemoveShortcut(s));
                assert(xp[j] == RemovalStep::RemoveShortcut(s));
            },
        }
    }
}

/// An install copies the files first and registers second; each shortcut is
/// created exactly when its own box is ticked and the platform names its
/// folder; the Programs folder is made exactly when the start-menu shortcut is
/// wanted, and before it; nothing else is done.
pub proof fn install_does_what_was_asked(
    desktop: bool,
    startmenu: bool,
    has_desktop_dir: bool,
    has_data_dir: bool,
)
    ensures
        ({
            let p = install_plan(desktop, startmenu, has_desktop_dir, has_data_dir);
            &&& p.len() >= 2
            &&& p[0] == InstallStep::CopyFiles
            &&& p[1] == InstallStep::WriteRegistry
            &&& p.contains(InstallStep::CreateShortcut(Shortcut::Desktop)) <==> (desktop
                && has_desktop_dir)
            &&& p.contains(InstallStep::CreateShortcut(Shortcut::StartMenu)) <==> (startmenu
                && has_data_dir)
            &&& p.contains(InstallStep::CreateProgramsDir) <==> (startmenu && has_data_dir)
            &&& forall|i: int, j: int|
                0 <= i < p.len() && 0 <= j < p.len() && p[i] == InstallStep::CreateProgramsDir
                    && p[j] == InstallStep::CreateShortcut(Shortcut::StartMenu) ==> i < j
            &&& forall|i: int| 2 <= i < p.len() ==> !(#[trigger] p[i] is CopyFiles) && !(
            p[i] is WriteRegistry)
            &&& p.len() == 2 + (if desktop && has_desktop_dir {
                1int
            } else {
                0
            }) + (if startmenu && has_data_dir {
                2int
            } else {
                0
            })
        }),
{
    let p = install_plan(desktop, startmenu, has_desktop_dir, has_data_dir);
    let a: Seq<InstallStep> = if desktop && has_desktop_dir {
        seq![InstallStep::CreateShortcut(Shortcut::Desktop)]
    } else {
        Seq::empty()
    };
    let b: Seq<InstallStep> = if startmenu && has_data_dir {
        seq![InstallStep::CreateProgramsDir, InstallStep::CreateShortcut(Shortcut::StartMenu)]
    } else {
        Seq::empty()
    };
    assert(p =~= seq![InstallStep::CopyFiles, InstallStep::WriteRegistry] + a + b);
    if desktop && has_desktop_dir {
        assert(p[2] == InstallStep::CreateShortcut(Shortcut::Desktop));
    } else {
        assert(!p.contains(InstallStep::CreateShortcut(Shortcut::Desktop)));
    }
    if startmenu && has_data_dir {
        assert(p[p.len() - 1] == InstallStep::CreateShortcut(Shortcut::StartMenu));
        assert(p[p.len() - 2] == InstallStep::CreateProgramsDir);
    } else {
        assert(!p.contains(InstallStep::CreateShortcut(Shortcut::StartMenu)));
        assert(!p.contains(InstallStep::CreateProgramsDir));
    }
}

/// Both ways of uninstalling remove each shortcut exactly when the platform
/// names its folder, then delete the registry entry, and end with the install
/// directory: removed at once by the installer, removal scheduled by the
/// stand-alone uninstaller.
pub proof fn removal_does_everything(has_desktop_dir: bool, has_data_dir: bool)
    ensures
        ({
            let u = uninstall_plan(has_desktop_dir, has_data_dir);
            let x = uninstaller_plan(has_desktop_dir, has_data_dir);
            &&& u.len() >= 2 && x.len() == u.len()
            &&& u[u.len() - 1] == RemovalStep::RemoveInstallDir
            &&& x[x.len() - 1] == RemovalStep::ScheduleInstallDirDelete
            &&& u[u.len() - 2] == RemovalStep::DeleteRegistryKey
            &&& x[x.len() - 2] == RemovalStep::DeleteRegistryKey
            &&& u.contains(RemovalStep::RemoveShortcut(Shortcut::Desktop)) <==> has_desktop_dir
            &&& u.contains(RemovalStep::RemoveShortcut(Shortcut::StartMenu)) <==> has_data_dir
            &&& x.contains(RemovalStep::RemoveShortcut(Shortcut::Desktop)) <==> has_desktop_dir
            &&& x.contains(RemovalStep::RemoveShortcut(Shortcut::StartMenu)) <==> has_data_dir
            &&& forall|i: int| 0 <= i < u.len() - 2 ==> #[trigger] u[i] is RemoveShortcut
            &&& forall|i: int| 0 <= i < x.len() - 2 ==> #[trigger] x[i] is RemoveShortcut
            &&& !u.contains(RemovalStep::ScheduleInstallDirDelete)
            &&& !x.contains(RemovalStep::RemoveInstallDir)
        }),
{
    let r = shortcut_removals(has_desktop_dir, has_data_dir);
    let u = uninstall_plan(has_desktop_dir, has_data_dir);
    let x = uninstaller_plan(has_desktop_dir, has_data_dir);
    assert(forall|i: int| 0 <= i < r.len() ==> #[trigger] r[i] is RemoveShortcut);
    assert(forall|i: int| 0 <= i < r.len() ==> u[i] == #[trigger] r[i] && x[i] == r[i]);
    if has_desktop_dir {
        assert(r[0] == RemovalStep::RemoveShortcut(Shortcut::Desktop));
        assert(u[0] == r[0] && x[0] == r[0]);
    } else {
        assert(!r.contains(RemovalStep::RemoveShortcut(Shortcut::Desktop)));
        assert(!u.contains(RemovalStep::RemoveShortcut(Shortcut::Desktop)));
        assert(!x.contains(RemovalStep::RemoveShortcut(Shortcut::Desktop)));
    }
    if has_data_dir {
        assert(r[r.len() - 1] == RemovalStep::RemoveShortcut(Shortcut::StartMenu));
        assert(u[r.len() - 1] == r[r.len() - 1] && x[r.len() - 1] == r[r.len() - 1]);
    } else {
        assert(!r.contains(RemovalStep::RemoveShortcut(Shortcut::StartMenu)));
        assert(!u.contains(RemovalStep::RemoveShortcut(Shortcut::StartMenu)));
        assert(!x.contains(RemovalStep::RemoveShortcut(Shortcut::StartMenu)));
    }
    assert(!u.contains(RemovalStep::ScheduleInstallDirDelete));
    assert(!x.contains(RemovalStep::RemoveInstallDir));
}

/// A value in the uninstall entry.
#[derive(Debug, PartialEq, Eq)]
pub enum RegistryData {
    Text(String),
    Number(u32),
}

/// A named value in the uninstall entry.
#[derive(Debug, PartialEq, Eq)]
pub struct RegistryValue {
    pub name: &'static str,
    pub data: RegistryData,
}

/// `v` is the text value `name` = `text`.
pub open spec fn is_text(v: RegistryValue, name: Seq<char>, text: Seq<char>) -> bool {
    &&& v.name@ == name
    &&& v.data matches RegistryData::Text(t) && t@ == text
}

/// `v` is the number value `name` = `n`.
pub open spec fn is_number(v: RegistryValue, name: Seq<char>, n: u32) -> bool {
    v.name@ == name && v.data == RegistryData::Number(n)
}

fn text(name: &'static str, value: &str) -> (v: RegistryValue)
    ensures
        is_text(v, name@, value@),
{
    RegistryValue { name, data: RegistryData::Text(String::from_str(value)) }
}

/// The values of the uninstall entry that lets Windows list and remove the
/// program, in the order they are written: its name, publisher, location,
/// icon and uninstall command, and that it can be neither modified nor repaired.
pub fn uninstall_entry(location: &str, display_icon: &str, uninstall_command: &str) -> (values: Vec<RegistryValue>)
    ensures
        values@.len() == 7,
        is_text(values@[0], "DisplayName"@, "Meow Simulator"@),
        is_text(values@[1], "Publisher"@, "wzium"@),
        is_text(values@[2], "InstallLocation"@, location@),
        is_text(values@[3], "DisplayIcon"@, display_icon@),
        is_text(values@[4], "UninstallString"@, uninstall_command@),
        is_number(values@[5], "NoModify"@, 1),
        is_number(values@[6], "NoRepair"@, 1),
{
    let mut values = Vec::new();
    values.push(text("DisplayName", "Meow Simulator"));
    values.push(text("Publisher", "wzium"));
    values.push(text("InstallLocation", location));
    values.push(text("DisplayIcon", display_icon));
    values.push(text("UninstallString", uninstall_command));
    values.push(RegistryValue { name: "NoModify", data: RegistryData::Number(1) });
    values.push(RegistryValue { name: "NoRepair", data: RegistryData::Number(1) });
    values
}

/// How the installer starts.
#[derive(Debug, Clone, Copy, PartialEq, Eq, Structural)]
pub enum Startup {
    /// Open the installer window here.
    OpenWizard,
    /// Copy the installed program to the temporary directory and start the
    /// installer from there, so that the install directory can be deleted.
    RelaunchFromTemp,
}

/// The installer relaunches from a temporary copy exactly when it runs from
/// inside an existing install and not already from the temporary directory.
pub fn startup(in_temp: bool, exe_in_existing_install: bool) -> (s: Startup)
    ensures
        s == (if !in_temp && exe_in_existing_install {
            Startup::RelaunchFromTemp
        } else {
            Startup::OpenWizard
        }),
{
    if !in_temp && exe_in_existing_install {
        Startup::RelaunchFromTemp
    } else {
        Startup::OpenWizard
    }
}

/// What to do with the temporary installer directory before copying into it.
#[derive(Debug, Clone, Copy, PartialEq, Eq, Structural)]
pub enum TempPrep {
    /// Another installer runs from it: say so and stop.
    AlreadyRunning,
    /// Delete what is there, then copy.
    ReplaceOld,
    /// Nothing is there: copy.
    Fresh,
}

/// An existing temporary directory in use by a process means another installer
/// runs; one not in use is cleared first.
pub fn prepare_temp(tmp_exists: bool, tmp_locked: bool) -> (p: TempPrep)
    ensures
        p == (if !tmp_exists {
            TempPrep::Fresh
        } else if tmp_locked {
            TempPrep::AlreadyRunning
        } else {
            TempPrep::ReplaceOld
        }),
{
    if !tmp_exists {
        TempPrep::Fresh
    } else if tmp_locked {
        TempPrep::AlreadyRunning
    } else {
        TempPrep::ReplaceOld
    }
}

/// Whether the processes holding the files need asking for: only for a
/// directory that exists and holds files to ask about.
pub fn should_query_holders(dir_exists: bool, tracked_files: usize) -> (q: bool)
    ensures
        q == (dir_exists && tracked_files > 0),
{
    dir_exists && tracked_files > 0
}

fn any_other(pids: &Vec<u32>, own_pid: u32) -> (found: bool)
    ensures
        found == exists|i: int| 0 <= i < pids.len() && #[trigger] pids@[i] != own_pid,
{
    let mut i: usize = 0;
    while i < pids.len()
        invariant
            i <= pids.len(),
            forall|j: int| 0 <= j < i ==> #[trigger] pids@[j] == own_pid,
        decreases pids.len() - i,
    {
        if pids[i] != own_pid {
            assert(pids@[i as int] != own_pid);
            return true;
        }
        i = i + 1;
    }
    false
}

/// Whether the files are held by a process other than this one, given the ids
/// of the processes holding them (`None` where asking failed, which counts as
/// not held).
pub fn held_by_other(holders: &Option<Vec<u32>>, own_pid: u32) -> (held: bool)
    ensures
        held == (match holders {
            Some(v) => exists|i: int| 0 <= i < v.len() && #[trigger] v@[i] != own_pid,
            None => false,
        }),
{
    match holders {
        None => false,
        Some(v) => any_other(v, own_pid),
    }
}

/// Whether a file extension marks a library that the pixbuf loader cache must
/// list: exactly `dll`.
pub fn is_dll(ext: Option<String>) -> (dll: bool)
    ensures
        dll == (ext matches Some(e) && e@ == "dll"@),
{
    match ext {
        Some(e) => e == String::from_str("dll"),
        None => false,
    }
}

} // verus!
