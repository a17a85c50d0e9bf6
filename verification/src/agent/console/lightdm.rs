//! Narrow LightDM X11 greeter-worker lifecycle.
//!
//! LightDM runs its configured greeter as a dedicated account. Its root-owned
//! hook starts a small launcher, which finds the already running greeter's
//! local X11 environment and starts *only* the normal worker as that account.
//! What a process is, is decided here from what the system says of it.

use vstd::prelude::*;
use vstd::string::*;

use crate::agent::error;
use crate::agent::error::{config_error, AgentErrorView, AgentResult};
use crate::text;
use crate::text::{
    chars_of, ends_with, find_char, parse_number, parse_signed, same_text, split_line, starts_with,
    text_between, trim, utf8_text, word_of,
};

verus! {

/// The account that LightDM runs its greeter as.
pub const LIGHTDM_USER: &'static str = "lightdm";

/// The socket that a worker is told to connect to.
pub const WORKER_SOCKET: &'static str = "/run/rivetlink/console.sock";

/// Seconds to wait for the greeter.
pub const FIND_GREETER_SECS: u64 = 20;

/// Milliseconds between two looks for the greeter.
pub const FIND_GREETER_INTERVAL_MS: u64 = 200;

/// Whether `display` names a local X11 display: a colon and a number, and
/// perhaps a dot and a screen number.
pub open spec fn is_local_display(display: Seq<char>) -> bool {
    if display.len() == 0 || display[0] != ':' {
        false
    } else {
        let number = display.drop_first();
        let dot = text::first_at(number, '.') as int;
        let screen = number.take(dot);
        let suffix = if dot < number.len() {
            number.skip(dot + 1)
        } else {
            Seq::empty()
        };
        screen.len() > 0 && text::all_digits(screen) && text::all_digits(suffix)
    }
}

fn digits_between(v: &Vec<char>, from: usize, to: usize) -> (r: bool)
    requires
        from <= to <= v@.len(),
    ensures
        r == text::all_digits(v@.subrange(from as int, to as int)),
{
    let mut i: usize = from;
    while i < to
        invariant
            from <= i <= to <= v@.len(),
            forall|j: int| from <= j < i ==> '0' <= #[trigger] v@[j] <= '9',
        decreases to - i,
    {
        let c: char = v[i];
        if c < '0' || c > '9' {
            assert(v@.subrange(from as int, to as int)[i - from] == c);
            return false;
        }
        i = i + 1;
    }
    true
}

/// Whether `display` names a local X11 display.
pub fn is_local_x11_display(display: &str) -> (local: bool)
    ensures
        local == is_local_display(display@),
{
    if !starts_with(display, ":") {
        proof {
            reveal_strlit(":");
            if display@.len() > 0 && display@[0] == ':' {
                assert(":"@ =~= display@.subrange(0, 1));
            }
        }
        return false;
    }
    proof {
        reveal_strlit(":");
        assert(":"@[0] == display@[0]);
    }
    let all = chars_of(display);
    let rest = text_between(&all, 1, all.len());
    assert(rest@ =~= display@.drop_first());
    let v = chars_of(rest.as_str());
    let dot: usize = find_char(&v, '.');
    assert(v@.subrange(0, dot as int) =~= v@.take(dot as int));
    if dot == 0 || !digits_between(&v, 0, dot) {
        return false;
    }
    if dot == v.len() {
        return true;
    }
    assert(v@.subrange(dot as int + 1, v@.len() as int) =~= v@.skip(dot as int + 1));
    digits_between(&v, dot + 1, v.len())
}

/// The display that LightDM's hook was given.
pub fn hook_display(display: Option<String>) -> (r: AgentResult<String>)
    ensures
        error::fails_with(
            r,
            if display is Some && is_local_display(display->0@) {
                None
            } else {
                Some(AgentErrorView::Config("LightDM did not provide a local X11 DISPLAY"@))
            },
        ),
        r matches Ok(d) ==> d@ == display->0@,
{
    match display {
        Some(display) => {
            if is_local_x11_display(display.as_str()) {
                Ok(display)
            } else {
                Err(config_error("LightDM did not provide a local X11 DISPLAY"))
            }
        },
        None => Err(config_error("LightDM did not provide a local X11 DISPLAY")),
    }
}

/// Refuses a display that is not local.
pub fn check_display(display: &str) -> (r: AgentResult<()>)
    ensures
        error::fails_with(
            r,
            if is_local_display(display@) {
                None
            } else {
                Some(AgentErrorView::Config("invalid LightDM X11 display"@))
            },
        ),
{
    if is_local_x11_display(display) {
        Ok(())
    } else {
        Err(config_error("invalid LightDM X11 display"))
    }
}

/// What follows `Uid:` on the first line that begins with it.
pub open spec fn uid_line(status: Seq<char>) -> Option<Seq<char>>
    decreases status.len(),
{
    if status.len() == 0 {
        None
    } else if "Uid:"@.is_prefix_of(text::first_line(status)) {
        Some(text::first_line(status).skip(4))
    } else if text::after_line(status).len() < status.len() {
        uid_line(text::after_line(status))
    } else {
        None
    }
}

/// The real user ID that a process status names.
pub open spec fn real_uid(status: Seq<char>) -> Option<nat> {
    match uid_line(status) {
        Some(ids) => match text::first_word(ids) {
            Some(word) => text::parsed_number(word, u32::MAX as nat),
            None => None,
        },
        None => None,
    }
}

/// The real user ID that a process status names.
pub fn process_real_uid(status: &str) -> (uid: Option<u32>)
    ensures
        uid is Some == real_uid(status@) is Some,
        uid matches Some(id) ==> Some(id as nat) == real_uid(status@),
{
    let mut rest = status.to_owned();
    while !rest.as_str().is_empty()
        invariant
            uid_line(rest@) == uid_line(status@),
        decreases rest@.len(),
    {
        let (line, after) = split_line(rest.as_str());
        if starts_with(line.as_str(), "Uid:") {
            proof {
                reveal_strlit("Uid:");
            }
            let v = chars_of(line.as_str());
            let ids = text_between(&v, 4, v.len());
            assert(ids@ =~= line@.skip(4));
            return match word_of(ids.as_str()) {
                Some(word) => parse_number(word.as_str(), u32::MAX),
                None => None,
            };
        }
        rest = after;
    }
    None
}

/// Where the first zero byte stands; the length if there is none.
pub open spec fn first_zero(bytes: Seq<u8>) -> nat
    decreases bytes.len(),
{
    if bytes.len() == 0 || bytes[0] == 0 {
        0
    } else {
        1 + first_zero(bytes.drop_first())
    }
}

proof fn first_zero_is(bytes: Seq<u8>, at: nat)
    requires
        at <= bytes.len(),
        at < bytes.len() ==> bytes[at as int] == 0,
        forall|i: int| 0 <= i < at ==> #[trigger] bytes[i] != 0,
    ensures
        first_zero(bytes) == at,
    decreases bytes.len(),
{
    if at > 0 {
        assert(bytes[0] != 0);
        let rest = bytes.drop_first();
        assert forall|i: int| 0 <= i < at - 1 implies #[trigger] rest[i] != 0 by {
            assert(bytes[i + 1] != 0);
        }
        first_zero_is(rest, (at - 1) as nat);
    }
}

/// The words between zero bytes that are valid UTF-8, as texts.
pub open spec fn words(bytes: Seq<u8>) -> Seq<Seq<char>>
    decreases bytes.len(),
{
    let end = first_zero(bytes) as int;
    let word = bytes.take(end);
    let rest = if 0 <= end < bytes.len() {
        words(bytes.skip(end + 1))
    } else {
        Seq::empty()
    };
    if vstd::utf8::valid_utf8(word) {
        seq![vstd::utf8::decode_utf8(word)] + rest
    } else {
        rest
    }
}

/// The texts of a list of strings.
pub open spec fn texts(list: Seq<String>) -> Seq<Seq<char>> {
    list.map_values(|s: String| s@)
}

/// The words between zero bytes that are valid UTF-8.
pub fn utf8_words(bytes: &[u8]) -> (list: Vec<String>)
    ensures
        texts(list@) == words(bytes@),
{
    let mut list: Vec<String> = Vec::new();
    let mut from: usize = 0;
    assert(bytes@.skip(0) =~= bytes@);
    assert(texts(list@) + words(bytes@) =~= words(bytes@));
    loop
        invariant
            from <= bytes@.len(),
            texts(list@) + words(bytes@.skip(from as int)) == words(bytes@),
        decreases bytes@.len() - from,
    {
        let ghost rest = bytes@.skip(from as int);
        let mut end: usize = from;
        while end < bytes.len() && bytes[end] != 0
            invariant
                from <= end <= bytes@.len(),
                forall|j: int| from <= j < end ==> #[trigger] bytes@[j] != 0,
            decreases bytes@.len() - end,
        {
            end = end + 1;
        }
        let ghost before = texts(list@);
        proof {
            assert forall|i: int| 0 <= i < end - from implies #[trigger] rest[i] != 0 by {
                assert(bytes@[from + i] != 0);
            }
            first_zero_is(rest, (end - from) as nat);
        }
        let word = vstd::slice::slice_subrange(bytes, from, end);
        assert(word@ =~= rest.take(end - from));
        let ghost tail = if end < bytes@.len() {
            words(rest.skip(end - from + 1))
        } else {
            Seq::empty()
        };
        match utf8_text(word) {
            Some(w) => {
                list.push(w);
                assert(texts(list@) =~= before.push(w@));
                assert(before + (seq![w@] + tail) =~= texts(list@) + tail);
            },
            None => {},
        }
        if end == bytes.len() {
            assert(texts(list@) + tail =~= texts(list@));
            return list;
        }
        assert(rest.skip(end - from + 1) =~= bytes@.skip(end as int + 1));
        from = end + 1;
    }
}

/// The value of `key` among environment entries; the last entry counts.
pub open spec fn value_of(entries: Seq<Seq<char>>, key: Seq<char>) -> Option<Seq<char>>
    decreases entries.len(),
{
    if entries.len() == 0 {
        None
    } else {
        let entry = entries.last();
        let eq = text::first_at(entry, '=') as int;
        if eq < entry.len() && entry.take(eq) == key {
            Some(entry.skip(eq + 1))
        } else {
            value_of(entries.drop_last(), key)
        }
    }
}

/// The value of `key` among environment entries; the last entry counts.
pub fn environment_value(entries: &Vec<String>, key: &str) -> (value: Option<String>)
    ensures
        value is Some == value_of(texts(entries@), key@) is Some,
        value matches Some(v) ==> Some(v@) == value_of(texts(entries@), key@),
{
    let ghost all = texts(entries@);
    let mut n: usize = entries.len();
    assert(all.take(n as int) =~= all);
    while n > 0
        invariant
            n <= entries@.len(),
            all == texts(entries@),
            value_of(all.take(n as int), key@) == value_of(all, key@),
        decreases n,
    {
        let v = chars_of(entries[n - 1].as_str());
        proof {
            assert(all.take(n as int).last() == v@);
            assert(all.take(n as int).drop_last() =~= all.take(n - 1));
        }
        let eq: usize = find_char(&v, '=');
        if eq < v.len() {
            let name = text_between(&v, 0, eq);
            assert(name@ =~= v@.take(eq as int));
            if same_text(name.as_str(), key) {
                let value = text_between(&v, eq + 1, v.len());
                assert(value@ =~= v@.skip(eq as int + 1));
                return Some(value);
            }
        }
        n = n - 1;
    }
    None
}

/// The X authority file of a process that is the greeter on `display`, by its
/// environment.
pub open spec fn authority_of(environment: Seq<u8>, display: Seq<char>) -> Option<Seq<char>> {
    let entries = words(environment);
    if value_of(entries, "DISPLAY"@) == Some(display) && value_of(entries, "XDG_SESSION_CLASS"@)
        == Some("greeter"@) {
        value_of(entries, "XAUTHORITY"@)
    } else {
        None
    }
}

/// The X authority file of a process that is the greeter on `display`, by its
/// environment.
pub fn greeter_authority(environment: &[u8], display: &str) -> (authority: Option<String>)
    ensures
        authority is Some == authority_of(environment@, display@) is Some,
        authority matches Some(path) ==> Some(path@) == authority_of(environment@, display@),
{
    let entries = utf8_words(environment);
    match environment_value(&entries, "DISPLAY") {
        Some(candidate) => {
            if !same_text(candidate.as_str(), display) {
                return None;
            }
        },
        None => {
            return None;
        },
    }
    match environment_value(&entries, "XDG_SESSION_CLASS") {
        Some(class) => {
            if !same_text(class.as_str(), "greeter") {
                return None;
            }
        },
        None => {
            return None;
        },
    }
    environment_value(&entries, "XAUTHORITY")
}

/// What the file system says of an X authority file.
#[derive(Debug, Clone, Copy)]
pub struct AuthorityFile {
    pub is_absolute: bool,
    pub is_file: bool,
    pub owner: u32,
    pub mode: u32,
}

/// Whether an X authority file can be relied on: it is a regular file at an
/// absolute path, of the greeter's account, that nobody else can write.
pub fn valid_lightdm_authority(file: &AuthorityFile, lightdm_uid: u32) -> (valid: bool)
    ensures
        valid == (file.is_absolute && file.is_file && file.owner == lightdm_uid && file.mode & 0x12
            == 0),
        valid == is_reliable(*file, lightdm_uid),
{
    file.is_absolute && file.is_file && file.owner == lightdm_uid && file.mode & 0x12 == 0
}

/// Whether a word of a command line is among `words`.
pub open spec fn has_word(words: Seq<Seq<char>>, word: Seq<char>) -> bool {
    exists|i: int| 0 <= i < words.len() && #[trigger] words[i] == word
}

/// Whether the words of a command line are those of a console worker.
pub open spec fn is_worker_command(words: Seq<Seq<char>>) -> bool {
    &&& exists|i: int| 0 <= i < words.len() && "rivet-agent"@.is_suffix_of(#[trigger] words[i])
    &&& has_word(words, "console-worker"@)
    &&& has_word(words, "--socket"@)
    &&& has_word(words, WORKER_SOCKET@)
}

fn contains_word(list: &Vec<String>, word: &str) -> (found: bool)
    ensures
        found == has_word(texts(list@), word@),
{
    let mut i: usize = 0;
    while i < list.len()
        invariant
            i <= list@.len(),
            forall|j: int| 0 <= j < i ==> #[trigger] texts(list@)[j] != word@,
        decreases list@.len() - i,
    {
        if same_text(list[i].as_str(), word) {
            assert(texts(list@)[i as int] == word@);
            return true;
        }
        i = i + 1;
    }
    false
}

fn names_agent(list: &Vec<String>) -> (found: bool)
    ensures
        found == exists|i: int|
            0 <= i < texts(list@).len() && "rivet-agent"@.is_suffix_of(#[trigger] texts(list@)[i]),
{
    let mut i: usize = 0;
    while i < list.len()
        invariant
            i <= list@.len(),
            forall|j: int|
                0 <= j < i ==> !"rivet-agent"@.is_suffix_of(#[trigger] texts(list@)[j]),
        decreases list@.len() - i,
    {
        if ends_with(list[i].as_str(), "rivet-agent") {
            assert("rivet-agent"@.is_suffix_of(texts(list@)[i as int]));
            return true;
        }
        i = i + 1;
    }
    false
}

/// Whether a process is a console worker that LightDM's hook has started, by
/// its status and command line. Only such a process may be sent a signal.
pub fn is_our_lightdm_worker(pid: i32, status: &str, cmdline: &[u8], lightdm_uid: u32) -> (ours: bool)
    ensures
        ours == (pid > 1 && real_uid(status@) == Some(lightdm_uid as nat) && is_worker_command(
            words(cmdline@),
        )),
        ours == is_ours(pid as int, real_uid(status@), words(cmdline@), lightdm_uid as nat),
{
    if pid <= 1 {
        return false;
    }
    match process_real_uid(status) {
        Some(uid) => {
            if uid != lightdm_uid {
                return false;
            }
        },
        None => {
            return false;
        },
    }
    let list = utf8_words(cmdline);
    names_agent(&list) && contains_word(&list, "console-worker") && contains_word(
        &list,
        "--socket",
    ) && contains_word(&list, WORKER_SOCKET)
}

/// The process ID in a PID file.
pub fn stored_pid(contents: &str) -> (r: AgentResult<i32>)
    ensures
        error::fails_with(
            r,
            if text::parsed_signed(text::trimmed(contents@)) is Some {
                None
            } else {
                Some(AgentErrorView::Config("invalid LightDM worker PID file"@))
            },
        ),
        r matches Ok(pid) ==> Some(pid as int) == text::parsed_signed(text::trimmed(contents@)),
{
    match parse_signed(trim(contents).as_str()) {
        Some(pid) => Ok(pid),
        None => Err(config_error("invalid LightDM worker PID file")),
    }
}

/// The user ID that an account lookup printed.
pub fn account_id(success: bool, output: &str) -> (r: AgentResult<u32>)
    ensures
        error::fails_with(
            r,
            if !success {
                Some(AgentErrorView::Config("LightDM account is unavailable"@))
            } else if text::parsed_number(text::trimmed(output@), u32::MAX as nat) is Some {
                None
            } else {
                Some(AgentErrorView::Config("invalid LightDM account UID"@))
            },
        ),
        r matches Ok(uid) ==> Some(uid as nat) == text::parsed_number(
            text::trimmed(output@),
            u32::MAX as nat,
        ),
{
    if !success {
        return Err(config_error("LightDM account is unavailable"));
    }
    match parse_number(trim(output).as_str(), u32::MAX) {
        Some(uid) => Ok(uid),
        None => Err(config_error("invalid LightDM account UID")),
    }
}

/// Refuses to go on for anyone but root, by what the identity lookup printed.
pub fn require_root(success: bool, output: &str) -> (r: AgentResult<()>)
    ensures
        error::fails_with(
            r,
            if success && text::trimmed(output@) == "0"@ {
                None
            } else {
                Some(
                    AgentErrorView::Config(
                        "LightDM greeter integration must be started by LightDM's root hook"@,
                    ),
                )
            },
        ),
{
    if success && same_text(trim(output).as_str(), "0") {
        Ok(())
    } else {
        Err(config_error("LightDM greeter integration must be started by LightDM's root hook"))
    }
}

/// What the watcher does after a look for the greeter.
#[derive(Debug)]
pub enum WatchStep {
    /// Stop a worker started before, and start one with this X authority file.
    Start(String),
    /// Look again after [`FIND_GREETER_INTERVAL_MS`].
    Wait,
}

/// What the watcher does after a look for the greeter.
pub fn watch_step(authority: Option<String>, expired: bool) -> (r: AgentResult<WatchStep>)
    ensures
        error::fails_with(
            r,
            if authority is None && expired {
                Some(
                    AgentErrorView::Config(
                        "LightDM greeter did not expose an authorized local X11 session"@,
                    ),
                )
            } else {
                None
            },
        ),
        r matches Ok(step) ==> (match authority {
            Some(path) => step matches WatchStep::Start(p) && p@ == path@,
            None => step is Wait,
        }),
{
    match authority {
        Some(path) => Ok(WatchStep::Start(path)),
        None => {
            if expired {
                Err(config_error("LightDM greeter did not expose an authorized local X11 session"))
            } else {
                Ok(WatchStep::Wait)
            }
        },
    }
}

/// A local display is a colon and a number, with a dot and a screen number behind it
/// or not: every such name is accepted.
pub proof fn local_displays_are_accepted(number: Seq<char>, screen: Seq<char>)
    requires
        number.len() > 0,
        text::all_digits(number),
        text::all_digits(screen),
    ensures
        is_local_display(seq![':'] + number),
        is_local_display(seq![':'] + number + seq!['.'] + screen),
{
    let plain = seq![':'] + number;
    assert(plain.drop_first() =~= number);
    assert forall|i: int| 0 <= i < number.len() implies #[trigger] number[i] != '.' by {}
    text::first_at_is(number, '.', number.len());
    assert(number.take(number.len() as int) =~= number);
    let full = seq![':'] + number + seq!['.'] + screen;
    let rest = full.drop_first();
    assert(rest =~= number + seq!['.'] + screen);
    assert forall|i: int| 0 <= i < number.len() implies #[trigger] rest[i] != '.' by {
        assert(rest[i] == number[i]);
    }
    text::first_at_is(rest, '.', number.len());
    assert(rest.take(number.len() as int) =~= number);
    assert(rest.skip(number.len() as int + 1) =~= screen);
}

/// Nothing else is a local display: what is accepted begins with a colon and a digit,
/// and holds only digits and at most one dot behind the colon. So no host name is
/// ever one.
pub proof fn only_local_displays_are_accepted(display: Seq<char>)
    requires
        is_local_display(display),
    ensures
        display.len() >= 2,
        display[0] == ':',
        '0' <= display[1] <= '9',
        forall|i: int|
            1 <= i < display.len() ==> '0' <= #[trigger] display[i] <= '9' || display[i] == '.',
        forall|i: int, j: int|
            1 <= i < j < display.len() ==> !(#[trigger] display[i] == '.' && #[trigger] display[j]
                == '.'),
{
    let number = display.drop_first();
    text::first_at_is_first(number, '.');
    let dot = text::first_at(number, '.') as int;
    let screen = number.take(dot);
    assert(screen[0] == display[1]);
    assert forall|i: int| 1 <= i < display.len() implies '0' <= #[trigger] display[i] <= '9' || (
    display[i] == '.' && i - 1 == dot) by {
        if i - 1 < dot {
            assert(screen[i - 1] == display[i]);
        } else if i - 1 == dot {
            assert(number[dot] == display[i]);
        } else {
            assert(number.skip(dot + 1)[i - dot - 2] == display[i]);
        }
    }
}

/// The user of a process stands on the line that begins with `Uid:`: lines before it
/// do not matter, and of it the first number counts.
pub proof fn user_is_on_the_uid_line(line: Seq<char>, rest: Seq<char>)
    requires
        forall|i: int| 0 <= i < line.len() ==> #[trigger] line[i] != '\n' && line[i] != '\r',
    ensures
        ({
            let status = line + seq!['\n'] + rest;
            &&& !"Uid:"@.is_prefix_of(line) ==> real_uid(status) == real_uid(rest)
            &&& "Uid:"@.is_prefix_of(line) ==> real_uid(status) == (match text::first_word(
                line.skip(4),
            ) {
                Some(word) => text::parsed_number(word, u32::MAX as nat),
                None => None,
            })
        }),
{
    let status = line + seq!['\n'] + rest;
    assert forall|i: int| 0 <= i < line.len() implies #[trigger] status[i] != '\n' by {
        assert(status[i] == line[i]);
    }
    text::first_at_is(status, '\n', line.len());
    if line.len() > 0 {
        assert(status[line.len() - 1] == line[line.len() - 1]);
    }
    assert(text::first_line(status) =~= line);
    assert(text::after_line(status) =~= rest);
}

/// Without a line that begins with `Uid:` a process has no known user.
pub proof fn no_user_without_uid_line(line: Seq<char>)
    requires
        forall|i: int| 0 <= i < line.len() ==> #[trigger] line[i] != '\n',
        !"Uid:"@.is_prefix_of(line),
    ensures
        real_uid(line) is None,
        real_uid(Seq::empty()) is None,
{
    text::first_at_is(line, '\n', line.len());
    assert(text::first_line(line) =~= line);
    assert(text::after_line(line) =~= Seq::empty());
    assert(uid_line(Seq::empty()) is None);
}

/// Words stand between zero bytes: one in front of a zero byte is the first, in front
/// of those behind it, and one that is no text is left out.
pub proof fn words_stand_between_zeros(word: Seq<u8>, rest: Seq<u8>)
    requires
        forall|i: int| 0 <= i < word.len() ==> #[trigger] word[i] != 0,
    ensures
        vstd::utf8::valid_utf8(word) ==> {
            &&& words(word + seq![0u8] + rest) == seq![vstd::utf8::decode_utf8(word)] + words(rest)
            &&& words(word) == seq![vstd::utf8::decode_utf8(word)]
        },
        !vstd::utf8::valid_utf8(word) ==> {
            &&& words(word + seq![0u8] + rest) == words(rest)
            &&& words(word).len() == 0
        },
{
    let all = word + seq![0u8] + rest;
    assert forall|i: int| 0 <= i < word.len() implies #[trigger] all[i] != 0 by {
        assert(all[i] == word[i]);
    }
    first_zero_is(all, word.len());
    first_zero_is(word, word.len());
    assert(all.take(word.len() as int) =~= word);
    assert(all.skip(word.len() as int + 1) =~= rest);
    assert(word.take(word.len() as int) =~= word);
    assert(seq![vstd::utf8::decode_utf8(word)] + Seq::<Seq<char>>::empty() =~= seq![
        vstd::utf8::decode_utf8(word),
    ]);
}

/// A variable has the value of the last entry that sets it: an entry `name=value`
/// behind all others decides for its name, whatever the value holds, and leaves other
/// names as they are.
pub proof fn last_entry_sets_the_variable(
    entries: Seq<Seq<char>>,
    name: Seq<char>,
    value: Seq<char>,
    key: Seq<char>,
)
    requires
        forall|i: int| 0 <= i < name.len() ==> #[trigger] name[i] != '=',
    ensures
        value_of(entries.push(name + seq!['='] + value), key) == (if name == key {
            Some(value)
        } else {
            value_of(entries, key)
        }),
        value_of(Seq::empty(), key) is None,
{
    let entry = name + seq!['='] + value;
    assert forall|i: int| 0 <= i < name.len() implies #[trigger] entry[i] != '=' by {
        assert(entry[i] == name[i]);
    }
    text::first_at_is(entry, '=', name.len());
    assert(entry.take(name.len() as int) =~= name);
    assert(entry.skip(name.len() as int + 1) =~= value);
    assert(entries.push(entry).drop_last() =~= entries);
}

/// A process gives the X authority file of a display only if it is a greeter on that
/// very display, and then the one that its environment names.
pub proof fn authority_is_the_greeters(environment: Seq<u8>, display: Seq<char>)
    ensures
        authority_of(environment, display) matches Some(path) ==> {
            &&& value_of(words(environment), "DISPLAY"@) == Some(display)
            &&& value_of(words(environment), "XDG_SESSION_CLASS"@) == Some("greeter"@)
            &&& value_of(words(environment), "XAUTHORITY"@) == Some(path)
        },
        value_of(words(environment), "DISPLAY"@) == Some(display) && value_of(
            words(environment),
            "XDG_SESSION_CLASS"@,
        ) == Some("greeter"@) ==> authority_of(environment, display) == value_of(
            words(environment),
            "XAUTHORITY"@,
        ),
{
}

/// Whether a process may be sent a signal as a worker of the hook.
pub open spec fn is_ours(pid: int, uid: Option<nat>, words: Seq<Seq<char>>, lightdm_uid: nat) -> bool {
    pid > 1 && uid == Some(lightdm_uid) && is_worker_command(words)
}

/// Only a worker of LightDM's account is sent a signal: never the first process or a
/// group of processes, never one of another user, and never one whose command line
/// lacks the agent, the worker command, or its socket.
pub proof fn only_our_worker_is_signalled(
    pid: int,
    uid: Option<nat>,
    words: Seq<Seq<char>>,
    lightdm_uid: nat,
)
    ensures
        is_ours(pid, uid, words, lightdm_uid) <==> {
            &&& pid >= 2
            &&& uid matches Some(id)
            &&& id == lightdm_uid
            &&& exists|i: int|
                0 <= i < words.len() && "rivet-agent"@.is_suffix_of(#[trigger] words[i])
            &&& words.contains("console-worker"@)
            &&& words.contains("--socket"@)
            &&& words.contains("/run/rivetlink/console.sock"@)
        },
{
}

/// Whether an X authority file can be relied on.
pub open spec fn is_reliable(file: AuthorityFile, lightdm_uid: u32) -> bool {
    file.is_absolute && file.is_file && file.owner == lightdm_uid && file.mode & 0x12 == 0
}

/// A file that the group or others can write is never relied on, nor one of another
/// owner, nor one that is no regular file at an absolute path; any other file of the
/// greeter's account is.
pub proof fn reliable_files_are_the_greeters_alone(file: AuthorityFile, lightdm_uid: u32)
    ensures
        is_reliable(file, lightdm_uid) ==> file.mode & 0x10 == 0 && file.mode & 0x2 == 0
            && file.owner == lightdm_uid && file.is_absolute && file.is_file,
        file.mode & 0x10 == 0 && file.mode & 0x2 == 0 && file.owner == lightdm_uid
            && file.is_absolute && file.is_file ==> is_reliable(file, lightdm_uid),
{
    let mode = file.mode;
    assert(mode & 0x12 == 0 <==> mode & 0x10 == 0 && mode & 0x2 == 0) by (bit_vector);
}

} // verus!
