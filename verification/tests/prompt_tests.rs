use nimbuscode::prompts::{
    build_ask_prompt, build_cloud_prompt, build_generate_prompt, build_improve_prompt,
    build_mobile_prompt, platform_display,
};
use nimbuscode::text::{ascii_uppercase, join_words, u32_to_string};

#[test]
fn test_ask_prompt_with_file() {
    assert_eq!(build_ask_prompt("why?", None), "why?");
    assert_eq!(
        build_ask_prompt("why?", Some("let x = 1;")),
        "File content:\n```\nlet x = 1;\n```\n\nPrompt: why?"
    );
}

#[test]
fn test_improve_prompt_fences_code() {
    let prompt = build_improve_prompt("fn f() {}");
    assert!(prompt.starts_with("Please improve the following code."));
    assert!(prompt.ends_with("```\nfn f() {}\n```"));
}

#[test]
fn test_generate_prompt_names_language() {
    let prompt = build_generate_prompt("a web server", "rust");
    assert!(prompt.starts_with("Generate rust code for the following:\n\na web server"));
}

#[test]
fn test_cloud_prompt_uppercases_provider() {
    let prompt = build_cloud_prompt("a queue", "aws");
    assert!(prompt.starts_with("Generate AWS cloud deployment code/instructions for:\n\na queue"));
}

#[test]
fn test_platform_display_map() {
    assert_eq!(platform_display("ios"), "iOS (Swift/SwiftUI)");
    assert_eq!(platform_display("android"), "Android (Kotlin)");
    assert_eq!(platform_display("cross"), "cross-platform (React Native/Flutter)");
    assert_eq!(platform_display("web"), "web");
}

#[test]
fn test_mobile_prompt_uses_display_name() {
    let name = platform_display("android");
    let prompt = build_mobile_prompt("a todo app", name.as_str());
    assert!(prompt.starts_with(
        "Generate Android (Kotlin) mobile app development code/guidance for:\n\na todo app"
    ));
}

#[test]
fn test_ascii_uppercase() {
    assert_eq!(ascii_uppercase("gcp"), "GCP");
    assert_eq!(ascii_uppercase("Az-ure 9"), "AZ-URE 9");
}

#[test]
fn test_join_words() {
    assert_eq!(join_words(&vec![]), "");
    assert_eq!(join_words(&vec!["one".to_string()]), "one");
    assert_eq!(
        join_words(&vec!["write".to_string(), "a".to_string(), "parser".to_string()]),
        "write a parser"
    );
}

#[test]
fn test_u32_to_string() {
    assert_eq!(u32_to_string(0), "0");
    assert_eq!(u32_to_string(1024), "1024");
    assert_eq!(u32_to_string(4294967295), "4294967295");
}
