use nimbuscode::extract::extract_code_blocks;

#[test]
fn test_extract_code_blocks() {
    let markdown_text = r#"
Here is some code:

```python
def hello():
    print("Hello, world!")
```

And another block:

```javascript
function hello() {
    console.log("Hello, world!");
}
```
"#;

    let code_blocks = extract_code_blocks(markdown_text);
    assert_eq!(code_blocks.len(), 2);
    assert_eq!(code_blocks[0], "def hello():\n    print(\"Hello, world!\")");
    assert_eq!(
        code_blocks[1],
        "function hello() {\n    console.log(\"Hello, world!\");\n}"
    );
}

#[test]
fn test_extract_code_blocks_with_language() {
    let markdown_text = r#"
```rust
fn main() {
    println!("Hello, world!");
}
```
"#;

    let code_blocks = extract_code_blocks(markdown_text);
    assert_eq!(code_blocks.len(), 1);
    assert_eq!(code_blocks[0], "fn main() {\n    println!(\"Hello, world!\");\n}");
}

#[test]
fn test_extract_code_blocks_empty() {
    let markdown_text = "No code blocks here.";
    let code_blocks = extract_code_blocks(markdown_text);
    assert_eq!(code_blocks.len(), 0);
}

#[test]
fn test_extract_single_block_exact() {
    let code_blocks = extract_code_blocks("```python\ndef f():\n    pass\n```");
    assert_eq!(code_blocks, vec!["def f():\n    pass".to_string()]);
}

#[test]
fn test_extract_adjacent_blocks_in_order() {
    let markdown_text = "```python\nfirst\n```\n\n```rust\nsecond\n```";
    let code_blocks = extract_code_blocks(markdown_text);
    assert_eq!(code_blocks, vec!["first".to_string(), "second".to_string()]);
    assert!(!code_blocks[0].contains("python"));
    assert!(!code_blocks[1].contains("rust"));
}

#[test]
fn test_extract_unterminated_fence_contributes_nothing() {
    let code_blocks = extract_code_blocks("```python\nno closing fence here");
    assert_eq!(code_blocks.len(), 0);
}

#[test]
fn test_extract_longer_fence_keeps_inner_backticks() {
    let markdown_text = "````markdown\nuse ``` for fences\n````";
    let code_blocks = extract_code_blocks(markdown_text);
    assert_eq!(code_blocks, vec!["use ``` for fences".to_string()]);
}

#[test]
fn test_extract_short_closing_fence_does_not_close() {
    // a three-backtick line cannot close a four-backtick fence
    let code_blocks = extract_code_blocks("````\ninner\n```\nstill inner\n````");
    assert_eq!(code_blocks, vec!["inner\n```\nstill inner".to_string()]);
}

#[test]
fn test_extract_empty_block_and_blank_lines_preserved() {
    let code_blocks = extract_code_blocks("```\n```\n\n```text\na\n\nb\n```");
    assert_eq!(code_blocks, vec!["".to_string(), "a\n\nb".to_string()]);
}

#[test]
fn test_extract_ignores_text_outside_fences() {
    let markdown_text = "intro\n```\nbody\n```\noutro with `inline` code";
    let code_blocks = extract_code_blocks(markdown_text);
    assert_eq!(code_blocks, vec!["body".to_string()]);
}

#[test]
fn test_extract_indented_fence_is_no_fence() {
    // a fence line consists of the backticks alone; indentation disqualifies it
    let code_blocks = extract_code_blocks("  ```python\nx\n  ```");
    assert_eq!(code_blocks.len(), 0);
}
