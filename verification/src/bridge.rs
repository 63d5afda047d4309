//! The bridge itself: build the greeting as a string of the host, or say that
//! it could not be built.

use crate::greeting::greeting;
use crate::greeting::greeting_text;
use crate::host::java_is_null;
use crate::host::java_text;
use crate::host::new_java_string;
use jni::errors::Error;
use jni::objects::JObject;
use jni::objects::JString;
use jni::JNIEnv;
use vstd::prelude::*;

verus! {

/// Why the bridge has no string to hand back. There is one way to fail, and
/// the host cannot recover from it: the caller is expected to stop.
#[derive(Debug)]
pub enum BridgeError {
    /// The host did not build the string; `0` is the reason it gave.
    StringConstruction(Error),
}

/// Whether `string` is a whole string of the host that reads as `text`: not
/// the null reference, and holding exactly these characters.
pub open spec fn holds_text(string: JString<'_>, text: Seq<char>) -> bool {
    !java_is_null(string) && java_text(string) == text
}

/// What the bridge hands back for each outcome of the host's string
/// constructor: the string itself, or the one fatal error with the host's
/// reason inside.
pub open spec fn string_or_fatal_spec<'local>(made: Result<JString<'local>, Error>) -> Result<
    JString<'local>,
    BridgeError,
> {
    match made {
        Ok(string) => Ok(string),
        Err(cause) => Err(BridgeError::StringConstruction(cause)),
    }
}

/// Decides what to hand back once the host's string constructor has
/// answered. A string is passed on untouched; a failure becomes
/// [`BridgeError::StringConstruction`], never a string.
pub fn string_or_fatal<'local>(made: Result<JString<'local>, Error>) -> (out: Result<
    JString<'local>,
    BridgeError,
>)
    ensures
        out == string_or_fatal_spec(made),
{
    match made {
        Ok(string) => Ok(string),
        Err(cause) => Err(BridgeError::StringConstruction(cause)),
    }
}

/// The bridge function that the host's `MainActivity.callRustCode` resolves
/// to. It takes the execution environment of the call and the calling object,
/// which it leaves alone, and has the host build a string from the greeting.
///
/// A string that comes back is a whole one and reads as the greeting. Whether
/// the host builds it is the host's matter; when it does not, the result is
/// the fatal error and no string at all.
#[allow(non_snake_case)]
pub fn Java_dev_rodroid_rust_MainActivity_callRustCode<'local>(
    env: JNIEnv<'local>,
    _this: JObject<'local>,
) -> (out: Result<JString<'local>, BridgeError>)
    ensures
        out matches Ok(string) ==> holds_text(string, greeting_text()),
{
    let message = greeting();
    let made = new_java_string(&env, message);
    string_or_fatal(made)
}

/// Calling the bridge again changes nothing: any two strings that it hands
/// back hold the same characters, whichever environments the calls ran in.
pub proof fn lemma_repeated_calls_agree(first: JString<'_>, second: JString<'_>)
    requires
        holds_text(first, greeting_text()),
        holds_text(second, greeting_text()),
    ensures
        java_text(first) == java_text(second),
{
}

} // verus!
