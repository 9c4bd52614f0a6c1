use henry::agent::planner::extract_json_array;

#[test]
fn test_extract_json_array() {
    let input = "Here's the plan:\n```json\n[{\"id\": \"step_1\", \"description\": \"test\"}]\n```\nDone!";
    let result = extract_json_array(input);
    assert!(result.is_some());
    assert!(result.unwrap().contains("step_1"));
}

#[test]
fn test_extract_raw_json() {
    let input = "[{\"id\": \"step_1\"}]";
    let result = extract_json_array(input);
    assert!(result.is_some());
}
