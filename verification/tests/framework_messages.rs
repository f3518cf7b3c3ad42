use youmubot::framework::{
    after_command_report, before_command_allows, command_delimiters, command_with_whitespace, framework_owners, command_prefix, command_received_message, connected_message,
    dispatch_error_reply, dotenv_loaded_message, normal_message_log, unknown_command_message,
};

#[test]
fn prefix_and_delimiters() {
    assert_eq!(command_prefix(), "y!");
    assert_eq!(command_delimiters(), vec![" / ", "/ ", " /", "/"]);
}

#[test]
fn log_lines() {
    assert_eq!(connected_message("Youmu"), "Youmu is connected!");
    assert_eq!(dotenv_loaded_message("\"/app/.env\""), "Loaded dotenv from \"/app/.env\"");
    assert_eq!(command_received_message("ping", "alice"), "Got command 'ping' by user 'alice'");
    assert_eq!(unknown_command_message("pong"), "Could not find command named 'pong'");
    assert_eq!(normal_message_log("hello"), "Message is not a command 'hello'");
}

#[test]
fn report_after_success_is_only_logged() {
    let r = after_command_report("ping", None);
    assert_eq!(r.log, "Processed command 'ping'");
    assert_eq!(r.reply, None);
}

#[test]
fn report_after_failure_is_also_replied() {
    let r = after_command_report("ban", Some("\"not allowed\""));
    assert_eq!(r.log, "Command 'ban' returned error \"not allowed\"");
    assert_eq!(r.reply, Some(r.log.clone()));
}

#[test]
fn only_rate_limits_are_answered() {
    assert_eq!(dispatch_error_reply(None), None);
    assert_eq!(dispatch_error_reply(Some(12)), Some("Try this again in 12 seconds.".to_string()));
}

#[test]
fn framework_settings() {
    assert!(!command_with_whitespace());
    assert!(before_command_allows());
    assert_eq!(framework_owners(139216528564371456), vec![139216528564371456]);
}
