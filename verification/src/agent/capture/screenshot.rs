//! One-shot screen capture.
//!
//! The native capture is tried first, then the command-line tools of the system.
//! Synthetic data can stand in for a capture where no display is available.

use vstd::prelude::*;
use vstd::string::*;

use crate::agent::error;
use crate::agent::error::{config_error, AgentErrorView, AgentResult};
use crate::text;
use crate::text::parse_wide;

verus! {

/// Bytes of synthetic data where no number is given: 600 KiB.
pub const DEFAULT_FAKE_BYTES: usize = 614400;

/// Bytes of synthetic data to give instead of a capture, by the value of the
/// environment variable that asks for it: none without it, and the default size
/// if it is no number.
pub fn fake_capture_size(value: Option<&str>) -> (size: Option<usize>)
    ensures
        size is Some == value is Some,
        value matches Some(v) ==> (text::parsed_number(v@, usize::MAX as nat) is None ==> size->0
            == 600 * 1024),
        value matches Some(v) ==> size->0 == (match text::parsed_number(v@, usize::MAX as nat) {
            Some(n) => n,
            None => DEFAULT_FAKE_BYTES as nat,
        }),
{
    match value {
        Some(v) => match parse_wide(v, usize::MAX as u64) {
            Some(n) => Some(n as usize),
            None => Some(DEFAULT_FAKE_BYTES),
        },
        None => None,
    }
}

/// The pattern that synthetic data repeats.
pub open spec fn pattern() -> Seq<u8> {
    "RIVETLINK-FAKE-SCREENSHOT-".spec_bytes()
}

/// Deterministic pseudo-image bytes for testing the transport: the pattern, over
/// and over.
pub fn synthetic_blob(size: usize) -> (blob: Vec<u8>)
    ensures
        blob@.len() == size,
        forall|i: int|
            0 <= i < size ==> #[trigger] blob@[i] == pattern()[i % (pattern().len() as int)],
{
    let bytes = "RIVETLINK-FAKE-SCREENSHOT-".as_bytes();
    let n: usize = bytes.len();
    proof {
        reveal_strlit("RIVETLINK-FAKE-SCREENSHOT-");
        assert(vstd::utf8::is_ascii_chars("RIVETLINK-FAKE-SCREENSHOT-"@));
        vstd::utf8::is_ascii_chars_encode_utf8("RIVETLINK-FAKE-SCREENSHOT-"@);
    }
    assert(n == 26);
    let mut blob: Vec<u8> = Vec::new();
    let mut at: usize = 0;
    while blob.len() < size
        invariant
            blob@.len() <= size,
            bytes@ == pattern(),
            n == 26,
            bytes@.len() == 26,
            at == blob@.len() % 26,
            forall|i: int| 0 <= i < blob@.len() ==> #[trigger] blob@[i] == pattern()[i % 26],
        decreases size - blob@.len(),
    {
        blob.push(bytes[at]);
        at = at + 1;
        if at == n {
            at = 0;
        }
    }
    blob
}

/// A command that captures the screen into a file.
#[derive(Debug)]
pub struct CaptureCommand {
    pub program: String,
    pub args: Vec<String>,
}

/// Whether `command` runs `program` with the given arguments.
pub open spec fn runs(command: CaptureCommand, program: Seq<char>, args: Seq<Seq<char>>) -> bool {
    command.program@ == program && command.args@.map_values(|a: String| a@) == args
}

/// The command-line tools to try in turn, for sessions without a desktop portal:
/// `grim` on Wayland, `scrot` and `import` on X11.
pub fn capture_commands(path: &str) -> (commands: Vec<CaptureCommand>)
    ensures
        commands@.len() == 3,
        runs(commands@[0], "grim"@, seq![path@]),
        runs(commands@[1], "scrot"@, seq!["-z"@, path@]),
        runs(commands@[2], "import"@, seq!["-window"@, "root"@, path@]),
{
    let mut grim: Vec<String> = Vec::new();
    grim.push(path.to_owned());
    let mut scrot: Vec<String> = Vec::new();
    scrot.push("-z".to_owned());
    scrot.push(path.to_owned());
    let mut import: Vec<String> = Vec::new();
    import.push("-window".to_owned());
    import.push("root".to_owned());
    import.push(path.to_owned());
    assert(grim@.map_values(|a: String| a@) =~= seq![path@]);
    assert(scrot@.map_values(|a: String| a@) =~= seq!["-z"@, path@]);
    assert(import@.map_values(|a: String| a@) =~= seq!["-window"@, "root"@, path@]);
    let mut commands: Vec<CaptureCommand> = Vec::new();
    commands.push(CaptureCommand { program: "grim".to_owned(), args: grim });
    commands.push(CaptureCommand { program: "scrot".to_owned(), args: scrot });
    commands.push(CaptureCommand { program: "import".to_owned(), args: import });
    commands
}

/// The bytes that a tool captured: there must be some.
pub fn captured_file(bytes: Vec<u8>) -> (r: AgentResult<Vec<u8>>)
    ensures
        error::fails_with(
            r,
            if bytes@.len() > 0 {
                None
            } else {
                Some(AgentErrorView::Config("capture produced no data"@))
            },
        ),
        r matches Ok(b) ==> b == bytes,
{
    if bytes.len() == 0 {
        return Err(config_error("capture produced no data"));
    }
    Ok(bytes)
}

/// The bytes that the desktop portal captured: there must be some.
pub fn captured_by_portal(bytes: Vec<u8>) -> (r: AgentResult<Vec<u8>>)
    ensures
        error::fails_with(
            r,
            if bytes@.len() > 0 {
                None
            } else {
                Some(AgentErrorView::Config("portal capture produced no data"@))
            },
        ),
        r matches Ok(b) ==> b == bytes,
{
    if bytes.len() == 0 {
        return Err(config_error("portal capture produced no data"));
    }
    Ok(bytes)
}

/// Synthetic data goes round after 26 bytes.
pub proof fn pattern_has_26_bytes()
    ensures
        pattern().len() == 26,
        pattern() == vstd::utf8::encode_utf8("RIVETLINK-FAKE-SCREENSHOT-"@),
{
    reveal_strlit("RIVETLINK-FAKE-SCREENSHOT-");
    assert(vstd::utf8::is_ascii_chars("RIVETLINK-FAKE-SCREENSHOT-"@));
    vstd::utf8::is_ascii_chars_encode_utf8("RIVETLINK-FAKE-SCREENSHOT-"@);
}

/// A command that runs a program has its name, and hands it the arguments one by one.
pub proof fn commands_hand_over_their_arguments(
    command: CaptureCommand,
    program: Seq<char>,
    args: Seq<Seq<char>>,
)
    requires
        runs(command, program, args),
    ensures
        command.program@ == program,
        command.args@.len() == args.len(),
        forall|i: int| 0 <= i < args.len() ==> (#[trigger] command.args@[i])@ == args[i],
{
    assert forall|i: int| 0 <= i < args.len() implies (#[trigger] command.args@[i])@ == args[i] by {
        assert(command.args@.map_values(|a: String| a@)[i] == args[i]);
    }
}

} // verus!
