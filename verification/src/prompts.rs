//! Fixed user-facing messages and the system instruction that constrains the
//! model's output to the template's exact line structure.

use vstd::prelude::*;

verus! {

/// Welcome message shown when a user starts the bot, listing all available
/// commands.
pub const WELCOME_MESSAGE: &'static str = "Welcome to Theme Father Bot!\nI can help you create Telegram themes for different platforms.\n\nAvailable commands:\n/createIosTheme - Create theme for iOS\n/createAndroidTheme - Create theme for Android\n/createMacosTheme - Create theme for macOS\n/createWindowsTheme - Create theme for Windows\n/reset - Reset current theme creation process";

/// Message shown when a user resets their theme creation process.
pub const RESET_MESSAGE: &'static str = "Theme creation process has been reset.\n\nAvailable commands:\n/createIosTheme - Create theme for iOS\n/createAndroidTheme - Create theme for Android\n/createMacosTheme - Create theme for macOS\n/createWindowsTheme - Create theme for Windows\n/reset - Reset current theme creation process";

/// Prompt shown when a user starts iOS theme creation.
pub const IOS_PROMPT: &'static str = "Starting drawing the theme for iOS! Please describe how you want your theme to look:";

/// Prompt shown when a user starts Android theme creation.
pub const ANDROID_PROMPT: &'static str = "Starting drawing the theme for Android! Please describe how you want your theme to look:";

/// Prompt shown when a user starts macOS theme creation.
pub const MACOS_PROMPT: &'static str = "Starting drawing the theme for macOS! Please describe how you want your theme to look:";

/// Prompt shown when a user starts Windows theme creation.
pub const WINDOWS_PROMPT: &'static str = "Starting drawing the theme for Windows! Please describe how you want your theme to look:";

/// Everything of the system instruction that comes before the literal
/// template text.
pub const SYSTEM_MESSAGE_PREFIX: &'static str = "You are a specialized theme generator that strictly follows templates.\nYour sole purpose is to generate theme configurations by modifying values while preserving the exact structure and format of the template.\n\nSTRICT RULES:\n1. Output MUST be EXACTLY in the same format as the template below\n2. Every line MUST follow the pattern \"key: value\"\n3. Each key-value pair MUST be on its own line\n4. Never concatenate or combine values\n5. Every color value MUST be a complete hex code (e.g., #FF5500)\n6. Preserve ALL whitespace and indentation exactly as shown\n7. Do not add ANY explanatory text or comments\n8. Do not add or remove ANY lines from the template\n\nHere is the exact template to follow. Replace ONLY the values after each colon:\n```\n";

/// Everything of the system instruction that comes after the literal
/// template text.
pub const SYSTEM_MESSAGE_SUFFIX: &'static str = "\n```\n\nIMPORTANT: Your entire response must be an exact copy of this template with only the values changed. Nothing more, nothing less.";

/// Everything of the description acknowledgement that comes before the
/// platform name.
pub const PROCESSING_PREFIX: &'static str = "Got your description! I'm now creating a ";

/// Everything of the description acknowledgement that comes after the
/// platform name.
pub const PROCESSING_SUFFIX: &'static str = " theme based on your prompt\n\nProcessing, this may take a few minutes...";

/// The acknowledgement sent when a user's description is accepted, naming the
/// platform whose theme is being created.
pub fn processing_message(platform: &str) -> (r: String)
    ensures
        r@ == PROCESSING_PREFIX@ + platform@ + PROCESSING_SUFFIX@,
{
    let mut s = String::from_str(PROCESSING_PREFIX);
    s.append(platform);
    s.append(PROCESSING_SUFFIX);
    s
}

/// The system instruction for the theme synthesizer: the format-preservation
/// rules with the literal template text embedded verbatim between the fixed
/// prefix and suffix.
pub fn system_message(template: &str) -> (r: String)
    ensures
        r@ == SYSTEM_MESSAGE_PREFIX@ + template@ + SYSTEM_MESSAGE_SUFFIX@,
{
    let mut s = String::from_str(SYSTEM_MESSAGE_PREFIX);
    s.append(template);
    s.append(SYSTEM_MESSAGE_SUFFIX);
    s
}

/// The system instruction embeds the template verbatim: it appears unchanged
/// as the slice right after the fixed prefix.
pub proof fn lemma_system_message_contains_template(m: Seq<char>, t: Seq<char>)
    requires
        m == SYSTEM_MESSAGE_PREFIX@ + t + SYSTEM_MESSAGE_SUFFIX@,
    ensures
        m.subrange(
            SYSTEM_MESSAGE_PREFIX@.len() as int,
            (SYSTEM_MESSAGE_PREFIX@.len() + t.len()) as int,
        ) == t,
{
    assert(m.subrange(SYSTEM_MESSAGE_PREFIX@.len() as int, (SYSTEM_MESSAGE_PREFIX@.len() + t.len()) as int)
        =~= t);
}

} // verus!
