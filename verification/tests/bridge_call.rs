use hello_bridge::Java_dev_rodroid_rust_MainActivity_callRustCode;
use jni::objects::JObject;
use jni::InitArgsBuilder;
use jni::JavaVM;

// A process can start one Java VM only, so everything that needs a live host
// happens in this one test.
#[test]
fn bridge_hands_the_greeting_to_a_live_host() {
    let args = InitArgsBuilder::new().build().expect("VM arguments");
    let vm = JavaVM::new(args).expect("a Java VM");

    let env = vm.attach_current_thread_permanently().expect("an environment");
    let first = Java_dev_rodroid_rust_MainActivity_callRustCode(env, JObject::null())
        .expect("the first string");
    let env = vm.get_env().expect("an environment");
    let second = Java_dev_rodroid_rust_MainActivity_callRustCode(env, JObject::null())
        .expect("the second string");

    assert!(!first.is_null());
    assert!(!second.is_null());

    let mut reader = vm.get_env().expect("an environment");
    let first_text: String = reader.get_string(&first).expect("a readable string").into();
    let second_text: String = reader.get_string(&second).expect("a readable string").into();
    assert_eq!(first_text, "Hello from Rust");
    assert_eq!(second_text, "Hello from Rust");
    assert_eq!(first_text.as_bytes(), second_text.as_bytes());

    let first_bytes = reader.get_string(&first).expect("a readable string");
    assert_eq!(first_bytes.to_bytes(), b"Hello from Rust");
}
