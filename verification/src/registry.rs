//! The Windows Explorer context menu entry: the `reg` commands that install, remove
//! and detect it.
use vstd::prelude::*;

verus! {

/// The entry for every file type.
pub const REG_KEY_STAR: &'static str = "HKCU\\Software\\Classes\\*\\shell\\RustyImage";

/// The entry for image files.
pub const REG_KEY_IMAGE: &'static str = "HKCU\\Software\\Classes\\SystemFileAssociations\\image\\shell\\RustyImage";

/// The entry of earlier releases for every file type.
pub const LEGACY_KEY_STAR: &'static str = "HKCU\\Software\\Classes\\*\\shell\\RustyMedia";

/// The entry of earlier releases for image files.
pub const LEGACY_KEY_IMAGE: &'static str = "HKCU\\Software\\Classes\\SystemFileAssociations\\image\\shell\\RustyMedia";

/// The file types the entry for every file type applies to.
pub const APPLIES_TO: &'static str = "System.FileExtension:=.png OR System.FileExtension:=.jpg OR System.FileExtension:=.jpeg OR System.FileExtension:=.webp OR System.FileExtension:=.gif OR System.FileExtension:=.apng OR System.FileExtension:=.bmp OR System.FileExtension:=.ico OR System.FileExtension:=.tiff OR System.FileExtension:=.tif OR System.FileExtension:=.tga";

/// The menu text.
pub const MENU_TEXT: &'static str = "Convert with RustyImage";

/// One run of `reg`: its arguments, and whether a failure ends the whole operation.
pub struct RegCommand {
    pub args: Vec<String>,
    pub must_succeed: bool,
}

/// Why the context menu entry could not be changed.
#[derive(Debug)]
pub enum RegistryError {
    /// The entry exists only on Windows.
    Unsupported,
    /// The program's own path is unknown (the message).
    ExePath(String),
}

/// The message of a registry error.
pub open spec fn registry_error_text(e: RegistryError) -> Seq<char> {
    match e {
        RegistryError::Unsupported => "Windows registry integration is only supported on Windows"@,
        RegistryError::ExePath(m) => m@,
    }
}

impl RegistryError {
    /// The error's message (see `registry_error_text`).
    pub fn message(&self) -> (m: String)
        ensures
            m@ == registry_error_text(*self),
    {
        let mut m = String::new();
        match self {
            RegistryError::Unsupported => {
                m.append("Windows registry integration is only supported on Windows");
            },
            RegistryError::ExePath(inner) => {
                m.append(inner.as_str());
            },
        }
        m
    }
}

/// What running one planned command decides: stop with its error when the command
/// had to succeed and failed; go on otherwise.
pub fn stop_after(cmd: &RegCommand, outcome: Result<(), String>) -> (stop: Option<String>)
    ensures
        stop == match outcome {
            Ok(()) => None,
            Err(e) => if cmd.must_succeed {
                Some(e)
            } else {
                None
            },
        },
{
    match outcome {
        Ok(()) => None,
        Err(e) => {
            if cmd.must_succeed {
                Some(e)
            } else {
                None
            }
        },
    }
}

/// The text of each argument.
pub open spec fn arg_texts(args: Seq<String>) -> Seq<Seq<char>> {
    args.map_values(|a: String| a@)
}

fn add_default_command(key: &str, data: &str, required: bool) -> (c: RegCommand)
    ensures
        arg_texts(c.args@) == seq!["add"@, key@, "/ve"@, "/d"@, data@, "/f"@],
        c.must_succeed == required,
{
    let mut v: Vec<String> = Vec::new();
    v.push("add".to_owned());
    v.push(key.to_owned());
    v.push("/ve".to_owned());
    v.push("/d".to_owned());
    v.push(data.to_owned());
    v.push("/f".to_owned());
    assert(arg_texts(v@) =~= seq!["add"@, key@, "/ve"@, "/d"@, data@, "/f"@]);
    RegCommand { args: v, must_succeed: required }
}

fn add_value_command(key: &str, name: &str, data: &str, required: bool) -> (c: RegCommand)
    ensures
        arg_texts(c.args@) == seq!["add"@, key@, "/v"@, name@, "/d"@, data@, "/f"@],
        c.must_succeed == required,
{
    let mut v: Vec<String> = Vec::new();
    v.push("add".to_owned());
    v.push(key.to_owned());
    v.push("/v".to_owned());
    v.push(name.to_owned());
    v.push("/d".to_owned());
    v.push(data.to_owned());
    v.push("/f".to_owned());
    assert(arg_texts(v@) =~= seq!["add"@, key@, "/v"@, name@, "/d"@, data@, "/f"@]);
    RegCommand { args: v, must_succeed: required }
}

fn delete_command(key: &str) -> (c: RegCommand)
    ensures
        arg_texts(c.args@) == seq!["delete"@, key@, "/f"@],
        !c.must_succeed,
{
    let mut v: Vec<String> = Vec::new();
    v.push("delete".to_owned());
    v.push(key.to_owned());
    v.push("/f".to_owned());
    assert(arg_texts(v@) =~= seq!["delete"@, key@, "/f"@]);
    RegCommand { args: v, must_succeed: false }
}

/// `"path"`: the text in double quotes.
pub open spec fn quoted(path: Seq<char>) -> Seq<char> {
    "\""@ + path + "\""@
}

/// The commands that install the entry for the program at `exe`, in order: remove the
/// entries of earlier releases, then set the entry for every file type (text, icon,
/// file types, command line, each required), then the entry for image files (text,
/// icon, command line). The command line opens the clicked file with the program.
/// Off Windows there is no entry to install.
pub fn register_context_menu(on_windows: bool, exe: Result<String, String>) -> (res: Result<Vec<RegCommand>, RegistryError>)
    ensures
        !on_windows ==> res matches Err(RegistryError::Unsupported),
        on_windows && exe is Err ==> (res matches Err(RegistryError::ExePath(m)) && m == exe->Err_0),
        on_windows && exe is Ok ==> (res matches Ok(cmds) && {
            let p = exe->Ok_0@;
            let star_command = REG_KEY_STAR@ + "\\command"@;
            let image_command = REG_KEY_IMAGE@ + "\\command"@;
            &&& cmds@.len() == 9
            &&& arg_texts(cmds@[0].args@) == seq!["delete"@, LEGACY_KEY_STAR@, "/f"@] && !cmds@[0].must_succeed
            &&& arg_texts(cmds@[1].args@) == seq!["delete"@, LEGACY_KEY_IMAGE@, "/f"@] && !cmds@[1].must_succeed
            &&& arg_texts(cmds@[2].args@) == seq!["add"@, REG_KEY_STAR@, "/ve"@, "/d"@, MENU_TEXT@, "/f"@] && cmds@[2].must_succeed
            &&& arg_texts(cmds@[3].args@) == seq!["add"@, REG_KEY_STAR@, "/v"@, "Icon"@, "/d"@, quoted(p), "/f"@] && cmds@[3].must_succeed
            &&& arg_texts(cmds@[4].args@) == seq!["add"@, REG_KEY_STAR@, "/v"@, "AppliesTo"@, "/d"@, APPLIES_TO@, "/f"@] && cmds@[4].must_succeed
            &&& arg_texts(cmds@[5].args@) == seq!["add"@, star_command, "/ve"@, "/d"@, quoted(p) + " \"%1\""@, "/f"@] && cmds@[5].must_succeed
            &&& arg_texts(cmds@[6].args@) == seq!["add"@, REG_KEY_IMAGE@, "/ve"@, "/d"@, MENU_TEXT@, "/f"@] && !cmds@[6].must_succeed
            &&& arg_texts(cmds@[7].args@) == seq!["add"@, REG_KEY_IMAGE@, "/v"@, "Icon"@, "/d"@, quoted(p), "/f"@] && !cmds@[7].must_succeed
            &&& arg_texts(cmds@[8].args@) == seq!["add"@, image_command, "/ve"@, "/d"@, quoted(p) + " \"%1\""@, "/f"@] && !cmds@[8].must_succeed
        }),
{
    if !on_windows {
        return Err(RegistryError::Unsupported);
    }
    let exe = match exe {
        Ok(p) => p,
        Err(e) => {
            return Err(RegistryError::ExePath(e));
        },
    };
    let mut icon = String::new();
    icon.append("\"");
    icon.append(exe.as_str());
    icon.append("\"");
    let mut command_line = icon.clone();
    command_line.append(" \"%1\"");
    let mut star_command = REG_KEY_STAR.to_owned();
    star_command.append("\\command");
    let mut image_command = REG_KEY_IMAGE.to_owned();
    image_command.append("\\command");
    let mut cmds: Vec<RegCommand> = Vec::new();
    cmds.push(delete_command(LEGACY_KEY_STAR));
    cmds.push(delete_command(LEGACY_KEY_IMAGE));
    cmds.push(add_default_command(REG_KEY_STAR, MENU_TEXT, true));
    cmds.push(add_value_command(REG_KEY_STAR, "Icon", icon.as_str(), true));
    cmds.push(add_value_command(REG_KEY_STAR, "AppliesTo", APPLIES_TO, true));
    cmds.push(add_default_command(star_command.as_str(), command_line.as_str(), true));
    cmds.push(add_default_command(REG_KEY_IMAGE, MENU_TEXT, false));
    cmds.push(add_value_command(REG_KEY_IMAGE, "Icon", icon.as_str(), false));
    cmds.push(add_default_command(image_command.as_str(), command_line.as_str(), false));
    proof {
        assert(icon@ =~= quoted(exe@));
        assert(command_line@ =~= quoted(exe@) + " \"%1\""@);
    }
    Ok(cmds)
}

/// The commands that remove the entry and the entries of earlier releases, none
/// required. Off Windows there is no entry to remove.
pub fn unregister_context_menu(on_windows: bool) -> (res: Result<Vec<RegCommand>, RegistryError>)
    ensures
        !on_windows ==> res matches Err(RegistryError::Unsupported),
        on_windows ==> (res matches Ok(cmds) && {
            &&& cmds@.len() == 4
            &&& arg_texts(cmds@[0].args@) == seq!["delete"@, REG_KEY_STAR@, "/f"@]
            &&& arg_texts(cmds@[1].args@) == seq!["delete"@, REG_KEY_IMAGE@, "/f"@]
            &&& arg_texts(cmds@[2].args@) == seq!["delete"@, LEGACY_KEY_STAR@, "/f"@]
            &&& arg_texts(cmds@[3].args@) == seq!["delete"@, LEGACY_KEY_IMAGE@, "/f"@]
            &&& forall|i: int| 0 <= i < 4 ==> !(#[trigger] cmds@[i]).must_succeed
        }),
{
    if !on_windows {
        return Err(RegistryError::Unsupported);
    }
    let mut cmds: Vec<RegCommand> = Vec::new();
    cmds.push(delete_command(REG_KEY_STAR));
    cmds.push(delete_command(REG_KEY_IMAGE));
    cmds.push(delete_command(LEGACY_KEY_STAR));
    cmds.push(delete_command(LEGACY_KEY_IMAGE));
    Ok(cmds)
}

/// The `reg query` commands that find the entry, in the order they are tried.
pub fn registration_queries() -> (queries: Vec<Vec<String>>)
    ensures
        queries@.len() == 2,
        arg_texts(queries@[0]@) == seq!["query"@, REG_KEY_STAR@],
        arg_texts(queries@[1]@) == seq!["query"@, REG_KEY_IMAGE@],
{
    let mut a: Vec<String> = Vec::new();
    a.push("query".to_owned());
    a.push(REG_KEY_STAR.to_owned());
    let mut b: Vec<String> = Vec::new();
    b.push("query".to_owned());
    b.push(REG_KEY_IMAGE.to_owned());
    assert(arg_texts(a@) =~= seq!["query"@, REG_KEY_STAR@]);
    assert(arg_texts(b@) =~= seq!["query"@, REG_KEY_IMAGE@]);
    let mut queries: Vec<Vec<String>> = Vec::new();
    queries.push(a);
    queries.push(b);
    queries
}

/// Whether the entry is installed, given which of the queries that ran found their
/// key: on Windows, when one of them did.
pub fn is_context_menu_registered(on_windows: bool, found: &[bool]) -> (b: bool)
    ensures
        b == (on_windows && exists|i: int| 0 <= i < found@.len() && #[trigger] found@[i] == true),
{
    if !on_windows {
        return false;
    }
    let n = found.len();
    let mut i: usize = 0;
    while i < n
        invariant
            i <= n,
            n == found@.len(),
            on_windows,
            forall|j: int| 0 <= j < i ==> !found@[j],
        decreases n - i,
    {
        if found[i] {
            assert(found@[i as int] == true);
            return true;
        }
        i = i + 1;
    }
    false
}

} // verus!
