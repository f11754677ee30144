//! Capturing a frame: which key asks for it, and the name of the file that
//! the frame is saved to.

use vstd::prelude::*;
use vstd::string::StringExecFns;

verus! {

/// A key of the keyboard, as far as the sketches tell keys apart.
#[derive(Clone, Copy, Debug, PartialEq, Eq, Structural)]
pub enum Key {
    /// The capture key.
    S,
    /// Any other key.
    Other,
}

/// Calls `chrono::offset::Local::now` and writes the time out as `chrono`
/// displays it. The time is the machine's, so the contract claims nothing of
/// the text.
#[verifier::external_body]
fn local_now() -> String {
    chrono::offset::Local::now().to_string()
}

/// The name of a captured frame: the program's name, the time stamp, and the
/// ending of a PNG file.
pub open spec fn capture_name_spec(exe_name: Seq<char>, stamp: Seq<char>) -> Seq<char> {
    exe_name + stamp + ".png"@
}

/// The name of the file that a frame captured at `stamp` is saved to.
pub fn capture_name(exe_name: &str, stamp: &str) -> (name: String)
    ensures
        name@ == capture_name_spec(exe_name@, stamp@),
{
    let mut name = String::from_str(exe_name);
    name.append(stamp);
    name.append(".png");
    name
}

/// Whether a key asks that the frame be captured.
pub fn is_capture_key(key: Key) -> (asks: bool)
    ensures
        asks == (key == Key::S),
{
    match key {
        Key::S => true,
        Key::Other => false,
    }
}

/// What a key asks for at the time `stamp`: the capture key asks that the
/// frame be saved under the name of that time, no other key asks anything.
pub fn on_key(key: Key, exe_name: &str, stamp: &str) -> (request: Option<String>)
    ensures
        request.is_some() == (key == Key::S),
        request matches Some(name) ==> name@ == capture_name_spec(exe_name@, stamp@),
{
    match key {
        Key::S => Some(capture_name(exe_name, stamp)),
        Key::Other => None,
    }
}

/// A press of a key, now: the capture key asks that the frame be saved under
/// a name made of the program's name, the local time and the ending of a PNG
/// file; no other key asks anything.
pub fn key_pressed(key: Key, exe_name: &str) -> (request: Option<String>)
    ensures
        request.is_some() == (key == Key::S),
        request matches Some(name) ==> exists|stamp: Seq<char>|
            name@ == capture_name_spec(exe_name@, stamp),
{
    let now = local_now();
    on_key(key, exe_name, now.as_str())
}

} // verus!
