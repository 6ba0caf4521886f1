use theme_father::assets::get_theme_template;
use theme_father::models::UserState;
use theme_father::prompts::{
    processing_message, system_message, PROCESSING_PREFIX, PROCESSING_SUFFIX, RESET_MESSAGE,
    SYSTEM_MESSAGE_PREFIX, SYSTEM_MESSAGE_SUFFIX, WELCOME_MESSAGE,
};
use theme_father::synthesizer::{Synthesizer, USER_MESSAGE_PREFIX, USER_MESSAGE_TEMPLATE_HEADER};

#[test]
fn system_message_is_prefix_template_suffix() {
    let template = "name: X\ncolor: #000000";
    let m = system_message(template);
    assert_eq!(
        m,
        format!("{SYSTEM_MESSAGE_PREFIX}{template}{SYSTEM_MESSAGE_SUFFIX}")
    );
    assert!(m.contains(template));
}

#[test]
fn base_prompt_is_two_messages_system_first() {
    let s = Synthesizer::new(UserState {
        platform: Some("iOS".to_string()),
        theme_description: Some("dark mode".to_string()),
    });
    let msgs = s.get_base_prompt("iOS".to_string(), "dark mode".to_string());
    assert_eq!(msgs.len(), 2);
    assert_eq!(msgs[0].role, "system");
    assert_eq!(msgs[1].role, "user");
}

#[test]
fn system_message_carries_template_verbatim() {
    let s = Synthesizer::new(UserState {
        platform: Some("Android".to_string()),
        theme_description: Some("warm colors".to_string()),
    });
    let template = get_theme_template("Android").unwrap();
    let msgs = s.get_base_prompt("Android".to_string(), "warm colors".to_string());
    assert!(msgs[0].content.contains(&template));
    assert_eq!(
        msgs[0].content,
        format!("{SYSTEM_MESSAGE_PREFIX}{template}{SYSTEM_MESSAGE_SUFFIX}")
    );
}

#[test]
fn user_message_carries_description_verbatim() {
    let s = Synthesizer::new(UserState {
        platform: Some("macOS".to_string()),
        theme_description: Some("ocean blue, high contrast".to_string()),
    });
    let template = get_theme_template("macOS").unwrap();
    let msgs = s.get_base_prompt("macOS".to_string(), "ocean blue, high contrast".to_string());
    assert!(msgs[1].content.contains("ocean blue, high contrast"));
    assert_eq!(
        msgs[1].content,
        format!(
            "{USER_MESSAGE_PREFIX}ocean blue, high contrast{USER_MESSAGE_TEMPLATE_HEADER}{template}"
        )
    );
}

#[test]
fn empty_description_is_allowed() {
    let s = Synthesizer::new(UserState {
        platform: Some("ios".to_string()),
        theme_description: Some(String::new()),
    });
    let msgs = s.get_base_prompt("ios".to_string(), String::new());
    assert_eq!(msgs.len(), 2);
    let template = get_theme_template("ios").unwrap();
    assert_eq!(
        msgs[1].content,
        format!("{USER_MESSAGE_PREFIX}{USER_MESSAGE_TEMPLATE_HEADER}{template}")
    );
}

#[test]
fn processing_message_names_the_platform() {
    let m = processing_message("iOS");
    assert_eq!(m, format!("{PROCESSING_PREFIX}iOS{PROCESSING_SUFFIX}"));
    assert!(m.contains("iOS"));
}

#[test]
fn fixed_messages_list_the_commands() {
    for m in [WELCOME_MESSAGE, RESET_MESSAGE] {
        assert!(m.contains("/createIosTheme"));
        assert!(m.contains("/createAndroidTheme"));
        assert!(m.contains("/createMacosTheme"));
        assert!(m.contains("/createWindowsTheme"));
        assert!(m.contains("/reset"));
    }
    assert_ne!(WELCOME_MESSAGE, RESET_MESSAGE);
}
