//! The host's side of the boundary: the handles that the Java runtime passes
//! in and takes back, and the one call that the bridge makes into it.
//!
//! Nothing in this file is proved. Each item says what it takes on trust.

use jni::errors::Error;
use jni::objects::JObject;
use jni::objects::JString;
use jni::JNIEnv;
use vstd::prelude::*;

verus! {

/// `jni::JNIEnv`, the execution environment of one call from the host. Opaque.
#[verifier::external_type_specification]
#[verifier::external_body]
pub struct ExJNIEnv<'local>(JNIEnv<'local>);

/// `jni::sys::_jobject`, what a raw reference of the host points to. It is
/// declared because `JObject` names it; the bridge never holds one.
#[verifier::external_type_specification]
#[verifier::external_body]
pub struct ExRawObject(jni::sys::_jobject);

/// `jni::objects::JObject`, a reference to an object of the host. Opaque.
#[verifier::external_type_specification]
#[verifier::external_body]
pub struct ExJObject<'local>(JObject<'local>);

/// `jni::objects::JString`, a reference to a string of the host. Opaque: what
/// the contracts say of one, they say through [`java_text`] and
/// [`java_is_null`].
#[verifier::external_type_specification]
#[verifier::external_body]
pub struct ExJString<'local>(JString<'local>);

/// `jni::errors::Error`, the reason a call into the host failed. Opaque.
#[verifier::external_type_specification]
#[verifier::external_body]
pub struct ExError(Error);

/// The characters of the Java string that `string` refers to: what the host
/// gives back when the string is read with `JNIEnv::get_string` and decoded.
/// A Java string never changes, so a reference has one text as long as it
/// lives. Of the null reference nothing is said.
pub uninterp spec fn java_text(string: JString<'_>) -> Seq<char>;

/// Whether `string` is the null reference, as `JObject::is_null` tells it.
pub uninterp spec fn java_is_null(string: JString<'_>) -> bool;

/// Calls `JNIEnv::new_string`, which encodes `text` in the host's modified
/// UTF-8 and has the host build a string from it.
///
/// Taken on trust: a string that comes back as `Ok` is not the null reference
/// (the call turns a null result, and a pending Java exception, into `Err`),
/// and it holds the characters of `text`. When the call succeeds is the
/// host's matter, and nothing is claimed of it.
#[verifier::external_body]
pub(crate) fn new_java_string<'local>(env: &JNIEnv<'local>, text: &str) -> (made: Result<
    JString<'local>,
    Error,
>)
    ensures
        made matches Ok(string) ==> !java_is_null(string) && java_text(string) == text@,
{
    env.new_string(text)
}

} // verus!
