//! The Explorer context-menu entries that start the extractor: their names, the
//! registry keys they live under, and the command they run.

use vstd::prelude::*;

use crate::text::{chars_of, push_str, string_of};

verus! {

/// Name of the entry that extracts in standard mode.
pub const MENU_NAME: &'static str = "AE_Extract";
/// Text shown for the standard-mode entry.
pub const MENU_DISPLAY: &'static str = "使用 AE 解压";
/// Name of the entry that extracts in flat mode.
pub const MENU_NAME_FLAT: &'static str = "AE_Extract_Flat";
/// Text shown for the flat-mode entry.
pub const MENU_DISPLAY_FLAT: &'static str = "使用 AE 解压（平铺模式）";

/// The path with every `/` turned into `\`.
pub open spec fn backslashed(p: Seq<char>) -> Seq<char> {
    p.map_values(|c: char| if c == '/' { '\\' } else { c })
}

/// The command a context-menu entry runs: the program, quoted, then `--flat` for the
/// flat-mode entry, then the clicked item `%1`, quoted.
pub open spec fn menu_command_text(exe: Seq<char>, flat: bool) -> Seq<char> {
    seq!['"'] + backslashed(exe) + (if flat { "\" --flat \"%1\""@ } else { "\" \"%1\""@ })
}

/// The command that the context-menu entry runs for the program at `exe_path`
/// (`/` separators are written as `\`).
pub fn menu_command(exe_path: &str, flat: bool) -> (r: String)
    ensures
        r@ == menu_command_text(exe_path@, flat),
{
    let exe = chars_of(exe_path);
    let mut v: Vec<char> = Vec::new();
    v.push('"');
    let mut i: usize = 0;
    while i < exe.len()
        invariant
            i <= exe.len(),
            exe@ == exe_path@,
            v@ == seq!['"'] + backslashed(exe@.take(i as int)),
        decreases exe.len() - i,
    {
        if exe[i] == '/' {
            v.push('\\');
        } else {
            v.push(exe[i]);
        }
        i = i + 1;
        assert(v@ =~= seq!['"'] + backslashed(exe@.take(i as int)));
    }
    assert(exe@.take(exe.len() as int) =~= exe@);
    if flat {
        push_str(&mut v, "\" --flat \"%1\"");
    } else {
        push_str(&mut v, "\" \"%1\"");
    }
    string_of(&v)
}

/// The command of a context-menu entry is `"`, then the program path with each `/`
/// written as `\` and every other character (non-ASCII ones among them) kept as it is,
/// then `"` and the fixed tail (`--flat` for the flat entry, then `"%1"`).
pub proof fn lemma_menu_command_keeps_the_path(exe: Seq<char>, flat: bool)
    ensures
        menu_command_text(exe, flat).len() == exe.len() + 1 + (if flat { 13int } else { 6int }),
        menu_command_text(exe, flat)[0] == '"',
        forall|i: int|
            0 <= i < exe.len() ==> #[trigger] menu_command_text(exe, flat)[i + 1] == (if exe[i] == '/' {
                '\\'
            } else {
                exe[i]
            }),
        menu_command_text(exe, flat).skip(exe.len() as int + 1) == (if flat {
            seq!['"', ' ', '-', '-', 'f', 'l', 'a', 't', ' ', '"', '%', '1', '"']
        } else {
            seq!['"', ' ', '"', '%', '1', '"']
        }),
{
    reveal_strlit("\" --flat \"%1\"");
    reveal_strlit("\" \"%1\"");
    let t = menu_command_text(exe, flat);
    let tail = if flat { "\" --flat \"%1\""@ } else { "\" \"%1\""@ };
    assert(t.skip(exe.len() as int + 1) =~= tail);
    assert forall|i: int| 0 <= i < exe.len() implies #[trigger] t[i + 1] == (if exe[i] == '/' {
        '\\'
    } else {
        exe[i]
    }) by {
        assert(t[i + 1] == backslashed(exe)[i]);
    }
}

/// Key, under `Software\Classes`, of the entry `menu_name` for files.
pub open spec fn file_menu_key_text(menu_name: Seq<char>) -> Seq<char> {
    "*\\shell\\"@ + menu_name
}

/// Key, under `Software\Classes`, of the entry `menu_name` for folders.
pub open spec fn dir_menu_key_text(menu_name: Seq<char>) -> Seq<char> {
    "Directory\\shell\\"@ + menu_name
}

/// Key, under `Software\Classes`, of the entry `menu_name` for files.
pub fn file_menu_key(menu_name: &str) -> (r: String)
    ensures
        r@ == file_menu_key_text(menu_name@),
{
    crate::joined("*\\shell\\", menu_name)
}

/// Key, under `Software\Classes`, of the entry `menu_name` for folders.
pub fn dir_menu_key(menu_name: &str) -> (r: String)
    ensures
        r@ == dir_menu_key_text(menu_name@),
{
    crate::joined("Directory\\shell\\", menu_name)
}

/// The key under an entry's key that holds its command.
pub fn command_key(entry_key: &str) -> (r: String)
    ensures
        r@ == entry_key@ + "\\command"@,
{
    crate::joined(entry_key, "\\command")
}

/// Key, under `HKEY_CURRENT_USER`, checked to tell whether the entry `menu_name` is
/// registered.
pub fn registered_check_key(menu_name: &str) -> (r: String)
    ensures
        r@ == "Software\\Classes\\"@ + file_menu_key_text(menu_name@),
{
    let mut v = chars_of("Software\\Classes\\*\\shell\\");
    push_str(&mut v, menu_name);
    proof {
        reveal_strlit("Software\\Classes\\*\\shell\\");
        reveal_strlit("Software\\Classes\\");
        reveal_strlit("*\\shell\\");
        assert(v@ =~= "Software\\Classes\\"@ + file_menu_key_text(menu_name@));
    }
    string_of(&v)
}

} // verus!
