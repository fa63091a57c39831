//! The prompt texts of each command: the system prompts and the user-prompt
//! templates that wrap the operator's words, a source file's contents, or a
//! description into what is sent to the service.
use crate::text::{ascii_uppercase, spec_ascii_upper, str_eq};
use vstd::prelude::*;

verus! {

broadcast use vstd::string::group_string_axioms;

/// The default system prompt of a plain question.
pub fn ask_system_prompt() -> (r: String)
    ensures
        r@
            == "You are NimbusCode, an expert programming assistant. Your goal is to help the user write high-quality, efficient, and secure code. Provide clear, concise explanations and code examples. Focus on best practices, performance optimization, and security considerations. When appropriate, suggest improvements to the user's code or approach."@,
{
    String::from_str(
        "You are NimbusCode, an expert programming assistant. Your goal is to help the user write high-quality, efficient, and secure code. Provide clear, concise explanations and code examples. Focus on best practices, performance optimization, and security considerations. When appropriate, suggest improvements to the user's code or approach.",
    )
}

/// The system prompt of an interactive session.
pub fn interactive_system_prompt() -> (r: String)
    ensures
        r@
            == "You are NimbusCode, an expert programming assistant in an interactive session. Provide helpful, concise responses to the user's coding questions. Remember the context of the conversation and refer back to previous exchanges when relevant."@,
{
    String::from_str(
        "You are NimbusCode, an expert programming assistant in an interactive session. Provide helpful, concise responses to the user's coding questions. Remember the context of the conversation and refer back to previous exchanges when relevant.",
    )
}

/// The question of a plain ask, with a source file's contents fenced above it
/// when one is given.
pub fn build_ask_prompt(prompt: &str, file_content: Option<&str>) -> (r: String)
    ensures
        match file_content {
            Some(content) => r@ == "File content:\n```\n"@ + content@ + "\n```\n\nPrompt: "@
                + prompt@,
            None => r@ == prompt@,
        },
{
    match file_content {
        Some(content) => {
            let r = String::from_str("File content:\n```\n").concat(content);
            let r = r.concat("\n```\n\nPrompt: ");
            r.concat(prompt)
        },
        None => String::from_str(prompt),
    }
}

/// The system prompt of a code-improvement request.
pub fn improve_system_prompt() -> (r: String)
    ensures
        r@
            == "You are NimbusCode, an expert in code quality and optimization. Analyze the code and suggest improvements. Return the improved code in a markdown code block, keeping its language tag. Explain your changes clearly but concisely."@,
{
    String::from_str(
        "You are NimbusCode, an expert in code quality and optimization. Analyze the code and suggest improvements. Return the improved code in a markdown code block, keeping its language tag. Explain your changes clearly but concisely.",
    )
}

/// The request to improve the given code, the code fenced.
pub fn build_improve_prompt(code: &str) -> (r: String)
    ensures
        r@
            == "Please improve the following code. Focus on:\n1. Code quality and readability\n2. Performance optimizations\n3. Security best practices\n4. Error handling\n5. Documentation\n\nProvide the improved code and explain your changes.\n\n```\n"@
            + code@ + "\n```"@,
{
    let r = String::from_str(
        "Please improve the following code. Focus on:\n1. Code quality and readability\n2. Performance optimizations\n3. Security best practices\n4. Error handling\n5. Documentation\n\nProvide the improved code and explain your changes.\n\n```\n",
    ).concat(code);
    r.concat("\n```")
}

/// The system prompt of a code explanation.
pub fn explain_system_prompt() -> (r: String)
    ensures
        r@
            == "You are NimbusCode, an expert code analyst. Provide a clear, educational explanation of the code. Break down complex concepts and use examples where helpful. Your goal is to help the user fully understand how the code works."@,
{
    String::from_str(
        "You are NimbusCode, an expert code analyst. Provide a clear, educational explanation of the code. Break down complex concepts and use examples where helpful. Your goal is to help the user fully understand how the code works.",
    )
}

/// The request to explain the given code, the code fenced.
pub fn build_explain_prompt(code: &str) -> (r: String)
    ensures
        r@ == "Please explain the following code in detail:\n\n```\n"@ + code@
            + "\n```\n\nInclude:\n1. Overall purpose and functionality\n2. Breakdown of key components\n3. How the different parts work together\n4. Any potential issues or considerations"@,
{
    let r = String::from_str("Please explain the following code in detail:\n\n```\n").concat(code);
    r.concat(
        "\n```\n\nInclude:\n1. Overall purpose and functionality\n2. Breakdown of key components\n3. How the different parts work together\n4. Any potential issues or considerations",
    )
}

/// The system prompt of a code-generation request, for the given language.
pub fn generate_system_prompt(language: &str) -> (r: String)
    ensures
        r@ == "You are NimbusCode, an expert "@ + language@
            + " developer. Generate high-quality, efficient, and secure code based on the user's requirements. Include helpful comments and documentation. Focus on best practices and maintainability."@,
{
    let r = String::from_str("You are NimbusCode, an expert ").concat(language);
    r.concat(
        " developer. Generate high-quality, efficient, and secure code based on the user's requirements. Include helpful comments and documentation. Focus on best practices and maintainability.",
    )
}

/// The request to generate code in the given language from a description.
pub fn build_generate_prompt(description: &str, language: &str) -> (r: String)
    ensures
        r@ == "Generate "@ + language@ + " code for the following:\n\n"@ + description@
            + "\n\nProvide complete, working code with appropriate comments and documentation."@,
{
    let r = String::from_str("Generate ").concat(language);
    let r = r.concat(" code for the following:\n\n");
    let r = r.concat(description);
    r.concat("\n\nProvide complete, working code with appropriate comments and documentation.")
}

/// The system prompt of a cloud-deployment request, the provider upper-cased.
pub fn cloud_system_prompt(provider: &str) -> (r: String)
    ensures
        r@ == "You are NimbusCode, an expert in cloud architecture and deployment on "@
            + spec_ascii_upper(provider@)
            + ". Provide detailed, practical guidance for deploying applications to the cloud. Focus on security best practices, cost optimization, and maintainability."@,
{
    let upper = ascii_uppercase(provider);
    let r = String::from_str(
        "You are NimbusCode, an expert in cloud architecture and deployment on ",
    ).concat(upper.as_str());
    r.concat(
        ". Provide detailed, practical guidance for deploying applications to the cloud. Focus on security best practices, cost optimization, and maintainability.",
    )
}

/// The request for deployment code on the given provider.
pub fn build_cloud_prompt(description: &str, provider: &str) -> (r: String)
    ensures
        r@ == "Generate "@ + spec_ascii_upper(provider@)
            + " cloud deployment code/instructions for:\n\n"@ + description@
            + "\n\nInclude:\n1. Required resources and services\n2. Infrastructure as Code (if applicable)\n3. Deployment steps\n4. Security considerations\n5. Cost optimization tips"@,
{
    let upper = ascii_uppercase(provider);
    let r = String::from_str("Generate ").concat(upper.as_str());
    let r = r.concat(" cloud deployment code/instructions for:\n\n");
    let r = r.concat(description);
    r.concat(
        "\n\nInclude:\n1. Required resources and services\n2. Infrastructure as Code (if applicable)\n3. Deployment steps\n4. Security considerations\n5. Cost optimization tips",
    )
}

/// The display name of a mobile platform: the three known platforms get their
/// toolchain names, anything else stands as written.
pub fn platform_display(platform: &str) -> (r: String)
    ensures
        platform@ == "ios"@ ==> r@ == "iOS (Swift/SwiftUI)"@,
        platform@ == "android"@ ==> r@ == "Android (Kotlin)"@,
        platform@ == "cross"@ ==> r@ == "cross-platform (React Native/Flutter)"@,
        platform@ != "ios"@ && platform@ != "android"@ && platform@ != "cross"@ ==> r@
            == platform@,
{
    proof {
        reveal_strlit("ios");
        reveal_strlit("android");
        reveal_strlit("cross");
        assert("ios"@.len() == 3);
        assert("android"@.len() == 7);
        assert("cross"@.len() == 5);
    }
    if str_eq(platform, "ios") {
        String::from_str("iOS (Swift/SwiftUI)")
    } else if str_eq(platform, "android") {
        String::from_str("Android (Kotlin)")
    } else if str_eq(platform, "cross") {
        String::from_str("cross-platform (React Native/Flutter)")
    } else {
        String::from_str(platform)
    }
}

/// The system prompt of a mobile-guidance request, for the given platform
/// display name.
pub fn mobile_system_prompt(platform_name: &str) -> (r: String)
    ensures
        r@ == "You are NimbusCode, an expert in "@ + platform_name@
            + " mobile app development. Provide detailed, practical guidance for building mobile applications. Focus on user experience, performance, and maintainable code architecture."@,
{
    let r = String::from_str("You are NimbusCode, an expert in ").concat(platform_name);
    r.concat(
        " mobile app development. Provide detailed, practical guidance for building mobile applications. Focus on user experience, performance, and maintainable code architecture.",
    )
}

/// The request for mobile development guidance on the given platform display
/// name.
pub fn build_mobile_prompt(description: &str, platform_name: &str) -> (r: String)
    ensures
        r@ == "Generate "@ + platform_name@ + " mobile app development code/guidance for:\n\n"@
            + description@
            + "\n\nInclude:\n1. App architecture\n2. Key components/screens\n3. Implementation details\n4. Best practices\n5. Performance considerations"@,
{
    let r = String::from_str("Generate ").concat(platform_name);
    let r = r.concat(" mobile app development code/guidance for:\n\n");
    let r = r.concat(description);
    r.concat(
        "\n\nInclude:\n1. App architecture\n2. Key components/screens\n3. Implementation details\n4. Best practices\n5. Performance considerations",
    )
}

} // verus!
