use vstd::prelude::*;
use crate::decimal::{decimal, push_decimal};
use crate::quoting::{double_quotes, doubled};

verus! {

/// The PowerShell program that makes the shortcut `link` point at `target`;
/// both paths stand in single-quoted literals, their `'` doubled.
pub fn shortcut_script(target: &str, link: &str) -> (res: String)
    ensures
        res@ == "$s=(New-Object -ComObject WScript.Shell).CreateShortcut('"@ + doubled(link@, '\'')
            + "');$s.TargetPath='"@ + doubled(target@, '\'') + "';$s.Save()"@,
{
    let l = double_quotes(link, '\'');
    let t = double_quotes(target, '\'');
    let mut s = String::from_str("$s=(New-Object -ComObject WScript.Shell).CreateShortcut('");
    s.append(l.as_str());
    s.append("');$s.TargetPath='");
    s.append(t.as_str());
    s.append("';$s.Save()");
    s
}

/// The PowerShell program that waits for process `pid` to end and then deletes
/// the directory `dir` (single-quoted, its `'` doubled).
pub fn cleanup_script(pid: u32, dir: &str) -> (res: String)
    ensures
        res@ == "Wait-Process -Id "@ + decimal(pid as nat)
            + " -ErrorAction SilentlyContinue; Remove-Item -Recurse -Force '"@ + doubled(dir@, '\'')
            + "'"@,
{
    let t = double_quotes(dir, '\'');
    let mut s = String::from_str("Wait-Process -Id ");
    push_decimal(&mut s, pid as u64);
    s.append(" -ErrorAction SilentlyContinue; Remove-Item -Recurse -Force '");
    s.append(t.as_str());
    s.append("'");
    s
}

/// The cmd command line that waits two seconds and then deletes the directory
/// `dir` (double-quoted, its `"` doubled).
pub fn delete_command(dir: &str) -> (res: String)
    ensures
        res@ == "timeout /t 2 >nul & rmdir /s /q \""@ + doubled(dir@, '"') + "\""@,
{
    let d = double_quotes(dir, '"');
    let mut s = String::from_str("timeout /t 2 >nul & rmdir /s /q \"");
    s.append(d.as_str());
    s.append("\"");
    s
}

/// The name of the scratch directory into which setup unpacks its bundle.
pub fn setup_dir_name(pid: u32) -> (res: String)
    ensures
        res@ == "meow-setup-"@ + decimal(pid as nat),
{
    let mut s = String::from_str("meow-setup-");
    push_decimal(&mut s, pid as u64);
    s
}

/// The question that the uninstaller asks before it removes `dir`.
pub fn uninstall_question(dir: &str) -> (res: String)
    ensures
        res@ == "Are you sure you want to uninstall Meow Simulator?\n\nThis will remove all files from:\n"@
            + dir@,
{
    let mut s = String::from_str(
        "Are you sure you want to uninstall Meow Simulator?\n\nThis will remove all files from:\n",
    );
    s.append(dir);
    s
}

} // verus!
