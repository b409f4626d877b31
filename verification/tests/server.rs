use merry_server::builder::ServerBuilder;
use merry_server::handler::{handle_event, replies_for_lines, HandlerAction, LineEvent};
use merry_server::protocol::{reply_for_line, str_eq, trim, CHICKEN_ART};

const EXPECTED_CHICKEN: &str = r#"
          ████████        
        ██      ▒▒██      
      ██    ▒▒▒▒▒▒▓▓██    
    ██  ░░▒▒▒▒▒▒▒▒▒▒▓▓██  
    ██░░▒▒▒▒▒▒▒▒▒▒▒▒▒▒██  
  ██  ░░▒▒▒▒▒▒▒▒░░▒▒▒▒▓▓██
  ██░░░░▒▒▒▒▒▒▒▒▒▒░░▒▒▓▓██
  ██░░▒▒▒▒▒▒▒▒▒▒░░░░▒▒▓▓██
    ██▒▒▒▒▒▒▒▒▒▒░░▒▒▒▒██  
  ░░██░░▒▒▒▒▒▒▒▒▒▒▒▒▓▓██  
    ░░██▒▒▒▒▒▒▒▒▒▒▓▓██    
        ██▒▒▒▒▒▒▓▓██      
        ██▒▒▒▒▒▒▓▓██      
          ████████        
          ██░░░░██        
          ██░░░░██        
          ██  ░░██        
        ██    ░░░░██      
      ██    ████░░░░██    
        ████    ████      
"#;

#[test]
fn test_server_builder_default_port() {
    let builder = ServerBuilder::new();
    assert_eq!(builder.effective_port(), 8080);
}

#[test]
fn test_server_builder_custom_port() {
    let builder = ServerBuilder::new().port(11111);
    assert_eq!(builder.effective_port(), 11111);
}

#[test]
fn test_handle_connection_merry() {
    let reply = reply_for_line("Merry\n");
    assert_eq!(&reply, "Christmas\n");
}

#[test]
fn test_handle_connection_chicken() {
    let reply = reply_for_line("Chicken\n");
    assert_eq!(reply.len(), EXPECTED_CHICKEN.len());
    assert_eq!(reply.as_bytes(), EXPECTED_CHICKEN.as_bytes());
}

#[test]
fn chicken_art_matches_expected_blob() {
    assert_eq!(CHICKEN_ART.as_bytes(), EXPECTED_CHICKEN.as_bytes());
}

#[test]
fn unknown_word_gets_question_mark() {
    assert_eq!(&reply_for_line("Xmas\n"), "?\n");
}

#[test]
fn empty_line_gets_question_mark() {
    assert_eq!(&reply_for_line("\n"), "?\n");
    assert_eq!(&reply_for_line(""), "?\n");
}

#[test]
fn lowercase_merry_gets_question_mark() {
    assert_eq!(&reply_for_line("merry\n"), "?\n");
}

#[test]
fn whitespace_only_line_gets_question_mark() {
    assert_eq!(&reply_for_line("   \t \r\n"), "?\n");
}

#[test]
fn surrounding_whitespace_is_trimmed_before_dispatch() {
    assert_eq!(&reply_for_line("  Merry \r\n"), "Christmas\n");
    assert_eq!(
        reply_for_line("\tChicken\n").as_bytes(),
        EXPECTED_CHICKEN.as_bytes()
    );
}

#[test]
fn trim_removes_leading_and_trailing_blanks() {
    assert_eq!(trim("  Merry \n"), "Merry");
    assert_eq!(trim("Chicken"), "Chicken");
    assert_eq!(trim(" \t\r\n"), "");
    assert_eq!(trim(""), "");
}

#[test]
fn str_eq_compares_exactly() {
    assert!(str_eq("Merry", "Merry"));
    assert!(!str_eq("Merry", "merry"));
    assert!(!str_eq("Merry", "Merry "));
    assert!(str_eq("", ""));
}

#[test]
fn handler_replies_to_a_received_line() {
    let action = handle_event(&LineEvent::Line(String::from("Merry\n")));
    match action {
        HandlerAction::Reply(r) => assert_eq!(&r, "Christmas\n"),
        HandlerAction::Stop => panic!("handler stopped on a received line"),
    }
}

#[test]
fn handler_stops_on_closed_connection() {
    let action = handle_event(&LineEvent::Closed);
    assert!(matches!(action, HandlerAction::Stop));
}

#[test]
fn pipelined_lines_get_one_reply_each_in_order() {
    let lines = vec![
        String::from("Merry\n"),
        String::from("Chicken\n"),
        String::from("Xmas\n"),
        String::from("Merry\n"),
    ];
    let replies = replies_for_lines(&lines);
    assert_eq!(replies.len(), 4);
    assert_eq!(&replies[0], "Christmas\n");
    assert_eq!(replies[1].as_bytes(), EXPECTED_CHICKEN.as_bytes());
    assert_eq!(&replies[2], "?\n");
    assert_eq!(&replies[3], "Christmas\n");
}
