use revolt::avatar::{avatar_colour, default_avatar_colour, AvatarColour};
use revolt::bots::{create_bot_checks, CreateBotError, Data};
use revolt::guild::{prepare_guild, CreateGuild, CreateGuildError};
use revolt::text::{contains_id, truncate_chars};

#[test]
fn prepare_guild_requires_a_verified_email() {
    let info = CreateGuild {
        name: "My guild".to_string(),
        description: None,
        nonce: "n".to_string(),
    };
    assert!(matches!(
        prepare_guild(false, &info),
        Err(CreateGuildError::EmailNotVerified)
    ));
}

#[test]
fn prepare_guild_cuts_fields_to_their_stored_limits() {
    let info = CreateGuild {
        name: "x".repeat(40),
        description: Some("d".repeat(300)),
        nonce: "y".repeat(33),
    };
    let prepared = prepare_guild(true, &info).unwrap();
    assert_eq!(prepared.name, "x".repeat(32));
    assert_eq!(prepared.description, "d".repeat(255));
    assert_eq!(prepared.nonce, "y".repeat(32));
}

#[test]
fn prepare_guild_keeps_short_fields_and_fills_the_description() {
    let info = CreateGuild {
        name: "general".to_string(),
        description: None,
        nonce: "nonce".to_string(),
    };
    let prepared = prepare_guild(true, &info).unwrap();
    assert_eq!(prepared.name, "general");
    assert_eq!(prepared.description, "No description.");
    assert_eq!(prepared.nonce, "nonce");
}

#[test]
fn truncate_chars_counts_characters_not_bytes() {
    assert_eq!(truncate_chars("hello", 3), "hel");
    assert_eq!(truncate_chars("hello", 10), "hello");
    assert_eq!(truncate_chars("", 4), "");
    assert_eq!(truncate_chars("héllo", 2), "hé");
}

#[test]
fn contains_id_matches_whole_identities() {
    let ids = vec!["alpha".to_string(), "beta".to_string()];
    assert!(contains_id(&ids, "alpha"));
    assert!(contains_id(&ids, "beta"));
    assert!(!contains_id(&ids, "alph"));
    assert!(!contains_id(&ids, "gamma"));
    assert!(!contains_id(&vec![], "alpha"));
}

#[test]
fn bot_creation_checks_apply_in_order() {
    assert_eq!(create_bot_checks(true, 0, 5, true), Some(CreateBotError::IsBot));
    assert_eq!(create_bot_checks(false, 5, 5, false), Some(CreateBotError::ReachedMaximumBots));
    assert_eq!(create_bot_checks(false, 6, 5, true), Some(CreateBotError::ReachedMaximumBots));
    assert_eq!(create_bot_checks(false, 0, 5, true), Some(CreateBotError::UsernameTaken));
    assert_eq!(create_bot_checks(false, 4, 5, false), None);
    let data = Data { name: "helper".to_string() };
    assert_eq!(data.name, "helper");
}

#[test]
fn avatar_colours_follow_the_alphabet_quarters() {
    for c in ['0', '7'] {
        assert_eq!(avatar_colour(c), Some(AvatarColour::Red));
    }
    for c in ['8', '9', 'A', 'F'] {
        assert_eq!(avatar_colour(c), Some(AvatarColour::Green));
    }
    for c in ['G', 'J', 'M', 'Q'] {
        assert_eq!(avatar_colour(c), Some(AvatarColour::Blue));
    }
    for c in ['R', 'V', 'Z'] {
        assert_eq!(avatar_colour(c), Some(AvatarColour::Yellow));
    }
    // Letters outside the identity alphabet select nothing.
    for c in ['I', 'L', 'O', 'U', 'a', '-'] {
        assert_eq!(avatar_colour(c), None);
    }
}

#[test]
fn default_avatar_reads_the_26th_character() {
    let id = format!("{}8", "0".repeat(25));
    assert_eq!(default_avatar_colour(&id), Some(AvatarColour::Green));
    assert_eq!(default_avatar_colour("0".repeat(26).as_str()), Some(AvatarColour::Red));
    assert_eq!(default_avatar_colour("too short"), None);
    assert_eq!(default_avatar_colour(""), None);
}

#[test]
fn avatar_assets_are_named_by_colour() {
    assert_eq!(AvatarColour::Red.asset_name(), "user_red.png");
    assert_eq!(AvatarColour::Green.asset_name(), "user_green.png");
    assert_eq!(AvatarColour::Blue.asset_name(), "user_blue.png");
    assert_eq!(AvatarColour::Yellow.asset_name(), "user_yellow.png");
}
