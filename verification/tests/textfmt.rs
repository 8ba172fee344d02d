use portscope::record::TcpState;
use portscope::render::state_text;
use portscope::textfmt::{dec_text, pad_left_text, pad_right_text, spaces_text};

#[test]
fn decimal_rendering_matches_the_usual_notation() {
    assert_eq!(dec_text(0), "0");
    assert_eq!(dec_text(7), "7");
    assert_eq!(dec_text(10), "10");
    assert_eq!(dec_text(8080), "8080");
    assert_eq!(dec_text(65535), "65535");
    assert_eq!(dec_text(4294967295), "4294967295");
}

#[test]
fn left_padding_fills_with_spaces_up_to_width() {
    assert_eq!(pad_left_text("ab", 5), "   ab");
    assert_eq!(pad_left_text("abcde", 5), "abcde");
    assert_eq!(pad_left_text("abcdef", 5), "abcdef");
    assert_eq!(pad_left_text("", 3), "   ");
}

#[test]
fn right_padding_fills_with_spaces_up_to_width() {
    assert_eq!(pad_right_text("ab", 5), "ab   ");
    assert_eq!(pad_right_text("abcde", 5), "abcde");
    assert_eq!(pad_right_text("abcdef", 5), "abcdef");
}

#[test]
fn padding_counts_characters_not_bytes() {
    assert_eq!(pad_left_text("éé", 4), "  éé");
    assert_eq!(pad_right_text("éé", 4), "éé  ");
}

#[test]
fn spaces_text_builds_a_run_of_spaces() {
    assert_eq!(spaces_text(0), "");
    assert_eq!(spaces_text(4), "    ");
}

#[test]
fn state_labels_match_the_conventional_names() {
    assert_eq!(state_text(TcpState::Listen), "LISTEN");
    assert_eq!(state_text(TcpState::Established), "ESTABLISHED");
    assert_eq!(state_text(TcpState::CloseWait), "CLOSE_WAIT");
    assert_eq!(state_text(TcpState::SynReceived), "SYN_RCVD");
    assert_eq!(state_text(TcpState::FinWait1), "FIN_WAIT_1");
    assert_eq!(state_text(TcpState::Unknown), "__UNKNOWN");
}
