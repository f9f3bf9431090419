use crate::style::{paint, painted, Look};
use vstd::prelude::*;

verus! {

/// Mode bit: the owner may write.
pub const OWNER_WRITE: u32 = 0x80;

/// Mode bit: the owning group may write.
pub const GROUP_WRITE: u32 = 0x10;

/// Mode bit: anyone may write.
pub const OTHER_WRITE: u32 = 0x02;

/// The user `uid` may write to a directory with permission bits `mode`,
/// owned by `owner_uid`; `in_owner_group` tells whether the user is listed
/// as a member of the directory's group.
pub open spec fn may_write(uid: u32, mode: u32, owner_uid: u32, in_owner_group: bool) -> bool {
    ||| uid == 0
    ||| (mode & OWNER_WRITE != 0 && uid == owner_uid)
    ||| (mode & GROUP_WRITE != 0 && in_owner_group)
    ||| mode & OTHER_WRITE != 0
}

pub fn can_write(uid: u32, mode: u32, owner_uid: u32, in_owner_group: bool) -> (r: bool)
    ensures
        r == may_write(uid, mode, owner_uid, in_owner_group),
{
    if uid == 0 {
        return true;
    }
    if mode & OWNER_WRITE != 0 && uid == owner_uid {
        return true;
    }
    if mode & GROUP_WRITE != 0 && in_owner_group {
        return true;
    }
    mode & OTHER_WRITE != 0
}

/// The prompt character: `#` for the superuser, `$` for anyone else.
pub open spec fn symbol_text(uid: u32) -> Seq<char> {
    if uid == 0 {
        "#"@
    } else {
        "$"@
    }
}

pub fn prompt_symbol(uid: u32) -> (r: &'static str)
    ensures
        r@ == symbol_text(uid),
{
    if uid == 0 {
        "#"
    } else {
        "$"
    }
}

/// The prompt character, green where the working directory is writable, red
/// where it is not, and plain where that could not be told.
pub open spec fn prompt_char_text(uid: u32, writable: Option<bool>) -> Seq<char> {
    match writable {
        None => symbol_text(uid),
        Some(true) => painted(Look::Green, symbol_text(uid)),
        Some(false) => painted(Look::Red, symbol_text(uid)),
    }
}

pub fn format_prompt_char(uid: u32, writable: Option<bool>) -> (r: String)
    ensures
        r@ == prompt_char_text(uid, writable),
{
    let ch = prompt_symbol(uid);
    match writable {
        None => ch.to_owned(),
        Some(true) => paint(Look::Green, ch),
        Some(false) => paint(Look::Red, ch),
    }
}

/// The host name, italic, and also bold red over a remote session.
pub open spec fn hostname_text(hostname: Seq<char>, remote: bool) -> Seq<char> {
    if remote {
        painted(Look::RedBoldItalic, hostname)
    } else {
        painted(Look::Italic, hostname)
    }
}

pub fn style_hostname(hostname: &str, remote: bool) -> (r: String)
    ensures
        r@ == hostname_text(hostname@, remote),
{
    if remote {
        paint(Look::RedBoldItalic, hostname)
    } else {
        paint(Look::Italic, hostname)
    }
}

/// The full prompt line: host, user, a colon, the path, the git state and a
/// space where there is one, the prompt character and a space.
pub open spec fn prompt_line_text(
    host: Seq<char>,
    user: Seq<char>,
    path: Seq<char>,
    state: Seq<char>,
    prompt_char: Seq<char>,
) -> Seq<char> {
    host + " "@ + user + ":"@ + path + " "@ + state + (if state.len() == 0 {
        Seq::empty()
    } else {
        " "@
    }) + prompt_char + " "@
}

pub fn prompt_line(host: &str, user: &str, path: &str, state: &str, prompt_char: &str) -> (r:
    String)
    ensures
        r@ == prompt_line_text(host@, user@, path@, state@, prompt_char@),
{
    let mut r = host.to_owned();
    r.append(" ");
    r.append(user);
    r.append(":");
    r.append(path);
    r.append(" ");
    r.append(state);
    if !state.is_empty() {
        r.append(" ");
    }
    r.append(prompt_char);
    r.append(" ");
    r
}

/// The right-hand prompt: the branch in parentheses, then the last commit's
/// subject in double quotes.
pub open spec fn head_text(git_ref: Seq<char>, subject: Seq<char>) -> Seq<char> {
    "("@ + git_ref + ") \""@ + subject + "\""@
}

pub fn format_head(git_ref: &str, subject: &str) -> (r: String)
    ensures
        r@ == head_text(git_ref@, subject@),
{
    let mut r = "(".to_owned();
    r.append(git_ref);
    r.append(") \"");
    r.append(subject);
    r.append("\"");
    r
}

/// The window title: an explicit tab name wins; over a remote session the
/// host name; else the plain path.
pub open spec fn title_text(tab: Option<Seq<char>>, remote: bool, hostname: Seq<char>, path: Seq<
    char,
>) -> Seq<char> {
    match tab {
        Some(t) => t,
        None => if remote {
            "SSH "@ + hostname
        } else {
            path
        },
    }
}

pub fn window_title(tab: Option<&str>, remote: bool, hostname: &str, path: &str) -> (r: String)
    ensures
        r@ == title_text(
            match tab {
                Some(t) => Some(t@),
                None => None,
            },
            remote,
            hostname@,
            path@,
        ),
{
    match tab {
        Some(t) => t.to_owned(),
        None => if remote {
            let mut r = "SSH ".to_owned();
            r.append(hostname);
            r
        } else {
            path.to_owned()
        },
    }
}

} // verus!
