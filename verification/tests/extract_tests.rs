use cmdbot::executor::TaskCommand;
use cmdbot::extract::{extract, extract_json_array};

fn pairs(cmds: &[TaskCommand]) -> Vec<(String, String)> {
    cmds.iter().map(|c| (c.command.clone(), c.description.clone())).collect()
}

#[test]
fn fenced_block_with_surrounding_prose() {
    let raw = "Sure, here you go:\n```json\n[{\"command\": \"df -h\", \"description\": \"disk space\"}]\n```\nAnything else?";
    let cmds = extract(raw);
    assert_eq!(
        pairs(&cmds),
        vec![("df -h".to_string(), "disk space".to_string())]
    );
}

#[test]
fn fenced_block_without_language_tag() {
    let raw = "```\n[{\"command\": \"ls\"}]\n```";
    let cmds = extract(raw);
    assert_eq!(pairs(&cmds), vec![("ls".to_string(), String::new())]);
}

#[test]
fn fenced_block_on_one_line() {
    // No newline after the opening marker: the content starts right after it.
    let raw = "```[{\"command\": \"pwd\"}]```";
    let cmds = extract(raw);
    assert_eq!(pairs(&cmds), vec![("pwd".to_string(), String::new())]);
}

#[test]
fn bracket_span_without_fences() {
    let raw = "Run this please: [{\"command\": \"uptime\", \"description\": \"load\"}] thanks";
    let cmds = extract(raw);
    assert_eq!(
        pairs(&cmds),
        vec![("uptime".to_string(), "load".to_string())]
    );
}

#[test]
fn no_json_array_yields_empty() {
    assert!(extract("hello world, nothing to do").is_empty());
    assert!(extract("").is_empty());
    assert!(extract("   42   ").is_empty());
}

#[test]
fn invalid_json_inside_fence_yields_empty() {
    // A closed fence wins the candidate choice even when its body is not JSON.
    let raw = "```\nnot json at all\n```";
    assert!(extract(raw).is_empty());
}

#[test]
fn unclosed_fence_falls_back_to_bracket_span() {
    let raw = "``` [{\"command\": \"whoami\"}]";
    let cmds = extract(raw);
    assert_eq!(pairs(&cmds), vec![("whoami".to_string(), String::new())]);
}

#[test]
fn newline_search_is_global_after_opening_marker() {
    // The first newline after the opening marker lies beyond the closing
    // marker, so the fence tier finds no closed block and the bracket tier
    // takes over.
    let raw = "```abc``` \n [{\"command\": \"q\"}]";
    let cmds = extract(raw);
    assert_eq!(pairs(&cmds), vec![("q".to_string(), String::new())]);
}

#[test]
fn candidate_choice_is_exact() {
    assert_eq!(extract_json_array("x```\n inner \n``` y [z]"), "inner");
    assert_eq!(extract_json_array("a [1, 2] b"), "[1, 2]");
    assert_eq!(extract_json_array("  plain  "), "plain");
    // A last `]` before the first `[` is no span; the whole text is trimmed.
    assert_eq!(extract_json_array(" ] and [ "), "] and [");
}

#[test]
fn missing_command_member_yields_empty() {
    assert!(extract("[{\"description\": \"no command\"}]").is_empty());
}

#[test]
fn non_string_command_yields_empty() {
    assert!(extract("[{\"command\": 3}]").is_empty());
}

#[test]
fn non_string_description_yields_empty() {
    assert!(extract("[{\"command\": \"ls\", \"description\": 3}]").is_empty());
}

#[test]
fn non_object_element_yields_empty() {
    assert!(extract("[\"ls\"]").is_empty());
}

#[test]
fn empty_array_yields_no_commands() {
    assert!(extract("[]").is_empty());
    assert!(extract("```\n[]\n```").is_empty());
}

#[test]
fn several_commands_keep_their_order() {
    let raw = "[{\"command\": \"a\", \"description\": \"first\"}, {\"command\": \"b\"}, {\"command\": \"c\", \"description\": \"third\"}]";
    let cmds = extract(raw);
    assert_eq!(
        pairs(&cmds),
        vec![
            ("a".to_string(), "first".to_string()),
            ("b".to_string(), String::new()),
            ("c".to_string(), "third".to_string()),
        ]
    );
}

#[test]
fn unknown_members_are_ignored() {
    let raw = "[{\"command\": \"ls\", \"description\": \"list\", \"extra\": [1, {\"deep\": null}]}]";
    let cmds = extract(raw);
    assert_eq!(pairs(&cmds), vec![("ls".to_string(), "list".to_string())]);
}
