use music_visualizer::service_info::{
    ai_prompt, base_service_name, cache_is_stale, extract_field_from_text, generic_service_info,
    get_default_service_info, resolve_service_info, response_content, service_info_from_json,
    service_info_from_reply, service_info_from_text, service_status_str, startup_type_str,
    ServiceEntry, ServiceInfo, LONGEST_TIME,
};

fn info(description: &str, explained: Option<&str>, recommendation: Option<&str>) -> ServiceInfo {
    ServiceInfo {
        description: Some(description.to_string()),
        explained: explained.map(|s| s.to_string()),
        recommendation: recommendation.map(|s| s.to_string()),
    }
}

#[test]
fn quoted_field_is_read_up_to_the_closing_quote() {
    let text = "{ \"description\": \"Prints documents\", \"explained\": \"Spools jobs\" }";
    assert_eq!(extract_field_from_text(text, "description"), Some("Prints documents".to_string()));
    assert_eq!(extract_field_from_text(text, "explained"), Some("Spools jobs".to_string()));
    assert_eq!(extract_field_from_text(text, "recommendation"), None);
}

#[test]
fn labeled_field_is_read_up_to_the_end_of_the_line() {
    let text = "description: Prints documents\nexplained:   Spools jobs  \nrest";
    assert_eq!(extract_field_from_text(text, "description"), Some("Prints documents".to_string()));
    assert_eq!(extract_field_from_text(text, "explained"), Some("Spools jobs".to_string()));
}

#[test]
fn labeled_field_stops_at_a_quote_before_the_line_ends() {
    let text = "description: Prints \"all\" documents\nmore";
    assert_eq!(extract_field_from_text(text, "description"), Some("Prints".to_string()));
    let later = "description: first line\nsecond \"quoted\"";
    assert_eq!(
        extract_field_from_text(later, "description"),
        Some("first line\nsecond".to_string())
    );
}

#[test]
fn heading_field_is_read_from_the_next_line() {
    let text = "description\nPrints documents";
    assert_eq!(extract_field_from_text(text, "description"), Some("Prints documents".to_string()));
    let with_quote = "description\n  Prints \"x\"";
    assert_eq!(extract_field_from_text(with_quote, "description"), Some("Prints".to_string()));
}

#[test]
fn field_runs_to_the_end_without_quote_or_line_break() {
    assert_eq!(
        extract_field_from_text("gain: 12 dB \t ", "gain"),
        Some("12 dB".to_string())
    );
}

#[test]
fn value_is_trimmed_of_all_white_space() {
    let text = "description: \u{a0}\u{2003}\t value with  spaces \u{3000}\r\nnext";
    assert_eq!(
        extract_field_from_text(text, "description"),
        Some("value with  spaces".to_string())
    );
}

#[test]
fn empty_value_is_passed_over_for_the_next_form() {
    let text = "\"description\": \"\" and then description: real value\n";
    assert_eq!(extract_field_from_text(text, "description"), Some("real value".to_string()));
    let blank = "description:    \ndescription\nfrom heading";
    assert_eq!(extract_field_from_text(blank, "description"), Some("from heading".to_string()));
}

#[test]
fn only_the_first_occurrence_of_a_form_counts() {
    let text = "description:  \ndescription: second\n";
    assert_eq!(extract_field_from_text(text, "description"), None);
}

#[test]
fn missing_field_gives_nothing() {
    assert_eq!(extract_field_from_text("", "description"), None);
    assert_eq!(extract_field_from_text("nothing to see", "description"), None);
    assert_eq!(extract_field_from_text("description", "description"), None);
    assert_eq!(extract_field_from_text("description: ", "description"), None);
    assert_eq!(extract_field_from_text("description:\"x\"", "description"), None);
}

#[test]
fn quoted_form_wins_over_labeled_form() {
    let text = "description: plain\n\"description\": \"quoted\"";
    assert_eq!(extract_field_from_text(text, "description"), Some("quoted".to_string()));
}

#[test]
fn empty_field_name_matches_the_bare_patterns() {
    assert_eq!(extract_field_from_text("a: b\n", ""), Some("b".to_string()));
    assert_eq!(extract_field_from_text("\"\": \"v\"", ""), Some("v".to_string()));
}

#[test]
fn text_with_characters_beyond_ascii_is_cut_by_characters() {
    let text = "\u{1F600}\u{e9} description: caf\u{e9} \u{2022} ok\n";
    assert_eq!(
        extract_field_from_text(text, "description"),
        Some("caf\u{e9} \u{2022} ok".to_string())
    );
}

#[test]
fn json_reply_gives_its_three_texts() {
    let reply = "{\"description\": \"d\", \"explained\": \"e\", \"recommendation\": \"r\"}";
    assert_eq!(service_info_from_reply(reply), info("d", Some("e"), Some("r")));
}

#[test]
fn json_reply_without_a_text_leaves_it_missing() {
    let reply = "{\"description\": \"d\", \"explained\": 5, \"other\": \"x\"}";
    assert_eq!(service_info_from_reply(reply), info("d", None, None));
    let array = "[1, 2]";
    assert_eq!(
        service_info_from_reply(array),
        ServiceInfo { description: None, explained: None, recommendation: None }
    );
    let escaped = "{\"description\": \"line\\nbreak \\\"q\\\"\"}";
    assert_eq!(
        service_info_from_reply(escaped).description,
        Some("line\nbreak \"q\"".to_string())
    );
}

#[test]
fn text_reply_is_read_by_fields_with_stock_texts() {
    let reply = "Sure! description: Prints documents\nThat is all.";
    assert_eq!(
        service_info_from_reply(reply),
        info(
            "Prints documents",
            Some("AI-generated explanation"),
            Some("AI-generated recommendation")
        )
    );
    assert_eq!(service_info_from_text(reply), service_info_from_reply(reply));
    assert_eq!(
        service_info_from_text(""),
        info(
            "AI-generated description",
            Some("AI-generated explanation"),
            Some("AI-generated recommendation")
        )
    );
}

#[test]
fn text_reader_does_not_parse_json() {
    let reply = "{\"description\": \"d\", \"explained\": 5}";
    assert_eq!(
        service_info_from_text(reply),
        info("d", Some("AI-generated explanation"), Some("AI-generated recommendation"))
    );
}

#[test]
fn json_document_is_read_by_member() {
    let document: serde_json::Value =
        serde_json::from_str("{\"explained\": \"e\", \"recommendation\": null}").unwrap();
    assert_eq!(
        service_info_from_json(&document),
        ServiceInfo { description: None, explained: Some("e".to_string()), recommendation: None }
    );
    let text: serde_json::Value = serde_json::from_str("\"just text\"").unwrap();
    assert_eq!(
        service_info_from_json(&text),
        ServiceInfo { description: None, explained: None, recommendation: None }
    );
}

#[test]
fn reply_is_found_in_the_response() {
    let body = "{\"choices\": [{\"message\": {\"role\": \"assistant\", \"content\": \"hi\"}}, \
                {\"message\": {\"content\": \"second\"}}]}";
    let response: serde_json::Value = serde_json::from_str(body).unwrap();
    assert_eq!(response_content(&response), Ok("hi".to_string()));
}

#[test]
fn response_without_reply_is_refused() {
    let missing = Err("Invalid AI response format: missing content".to_string());
    for body in [
        "{}",
        "{\"choices\": []}",
        "{\"choices\": {\"message\": {\"content\": \"x\"}}}",
        "{\"choices\": [{\"message\": {\"content\": 7}}]}",
        "{\"choices\": [{\"content\": \"x\"}]}",
        "[{\"message\": {\"content\": \"x\"}}]",
        "null",
    ] {
        let response: serde_json::Value = serde_json::from_str(body).unwrap();
        assert_eq!(response_content(&response), missing);
    }
}

#[test]
fn prompt_names_the_service() {
    let prompt = ai_prompt("Spooler");
    assert!(prompt.starts_with("What is the Windows service \"Spooler\"?\n\nPlease provide"));
    assert!(prompt.contains("{\n  \"description\": \"Brief description here\","));
    assert!(prompt.contains("\"recommendation\": \"\u{2022} Point 1\\n\u{2022} Point 2\\n"));
    assert!(prompt.ends_with("}\n\nReturn only valid JSON, no additional text."));
    assert_eq!(ai_prompt("").find("\"\"?"), Some(28));
}

#[test]
fn unknown_service_gets_generic_information() {
    let generic = generic_service_info("Foo");
    assert_eq!(generic.description, Some("Windows service: Foo".to_string()));
    assert_eq!(
        generic.explained,
        Some(
            "Windows system service 'Foo'. Performs specific OS functions. Use reload for \
             AI-generated detailed explanation."
                .to_string()
        )
    );
    assert_eq!(
        generic.recommendation,
        Some(
            "\u{2022} Research service function before changes\n\u{2022} Many services are \
             essential for stability\n\u{2022} Consider functionality impact before \
             disabling\n\u{2022} Use reload button for detailed AI analysis"
                .to_string()
        )
    );
    assert!(generic.has_details());
}

fn table() -> Vec<ServiceEntry> {
    vec![
        ServiceEntry { name: "wuauserv".to_string(), info: info("update", Some("u"), None) },
        ServiceEntry { name: "Spooler".to_string(), info: info("print", None, Some("p")) },
        ServiceEntry { name: "spool".to_string(), info: info("short", None, None) },
    ]
}

#[test]
fn known_service_is_found_by_its_exact_name() {
    assert_eq!(get_default_service_info("Spooler", &table()), info("print", None, Some("p")));
    assert_eq!(get_default_service_info("spool", &table()), info("short", None, None));
}

#[test]
fn known_service_is_found_by_overlap_disregarding_capitals() {
    assert_eq!(get_default_service_info("WUAUSERV", &table()), info("update", Some("u"), None));
    assert_eq!(get_default_service_info("spooler", &table()), info("print", None, Some("p")));
    assert_eq!(get_default_service_info("SPOOLER_x1", &table()), info("print", None, Some("p")));
    assert_eq!(get_default_service_info("poo", &table()), info("print", None, Some("p")));
    assert_eq!(get_default_service_info("", &table()), info("update", Some("u"), None));
}

#[test]
fn service_not_in_the_table_gets_generic_information() {
    assert_eq!(get_default_service_info("Themes", &table()), generic_service_info("Themes"));
    assert_eq!(get_default_service_info("Themes", &Vec::new()), generic_service_info("Themes"));
}

#[test]
fn information_is_copied_whole() {
    let original = info("d", Some("e"), None);
    assert_eq!(original.copy(), original);
    assert!(original.has_details());
    assert!(!info("d", None, None).has_details());
    assert!(info("d", None, Some("r")).has_details());
}

#[test]
fn per_user_suffix_is_cut_off() {
    assert_eq!(base_service_name("CDPUserSvc_1a2b3"), "CDPUserSvc");
    assert_eq!(base_service_name("Spooler"), "Spooler");
    assert_eq!(base_service_name("a_b_c"), "a");
    assert_eq!(base_service_name("_x"), "");
    assert_eq!(base_service_name(""), "");
    assert_eq!(base_service_name("\u{e9}t\u{e9}_1"), "\u{e9}t\u{e9}");
}

#[test]
fn service_states_have_their_words() {
    assert_eq!(service_status_str(4), "Running");
    assert_eq!(service_status_str(1), "Stopped");
    assert_eq!(service_status_str(2), "Start Pending");
    assert_eq!(service_status_str(3), "Stop Pending");
    assert_eq!(service_status_str(6), "Pause Pending");
    assert_eq!(service_status_str(7), "Paused");
    assert_eq!(service_status_str(5), "Unknown");
    assert_eq!(service_status_str(0), "Unknown");
    assert_eq!(service_status_str(u32::MAX), "Unknown");
}

#[test]
fn startup_types_have_their_words() {
    assert_eq!(startup_type_str(2), "Automatic");
    assert_eq!(startup_type_str(3), "Manual");
    assert_eq!(startup_type_str(4), "Disabled");
    assert_eq!(startup_type_str(0), "Boot");
    assert_eq!(startup_type_str(1), "System");
    assert_eq!(startup_type_str(5), "Unknown");
    assert_eq!(startup_type_str(u32::MAX), "Unknown");
}

#[test]
fn known_details_are_kept() {
    let known = info("k", Some("e"), None);
    let fallback = info("f", None, Some("r"));
    assert_eq!(resolve_service_info(Some(&known), fallback.clone()), (known.clone(), false));
    let bare = info("k", None, None);
    assert_eq!(resolve_service_info(Some(&bare), fallback.clone()), (fallback.clone(), false));
    assert_eq!(resolve_service_info(None, fallback.clone()), (fallback, true));
}

#[test]
fn list_is_stale_when_empty_or_old() {
    let five_minutes: u128 = 300_000_000_000;
    assert!(cache_is_stale(0, Some(0), five_minutes));
    assert!(!cache_is_stale(3, Some(0), five_minutes));
    assert!(!cache_is_stale(3, Some(five_minutes), five_minutes));
    assert!(cache_is_stale(3, Some(five_minutes + 1), five_minutes));
    assert!(cache_is_stale(3, None, five_minutes));
    assert!(cache_is_stale(3, None, LONGEST_TIME - 1));
    assert!(!cache_is_stale(3, None, LONGEST_TIME));
    assert!(cache_is_stale(0, None, LONGEST_TIME));
    assert_eq!(LONGEST_TIME, std::time::Duration::MAX.as_nanos());
}
