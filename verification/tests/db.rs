use mk_dl_bot::bot::util::{make_database_url as make_sqlite_url, make_log_path, VAR_LIB_DEBUG, VAR_LIB_RELEASE, VAR_LOG_DEBUG, VAR_LOG_RELEASE};
use mk_dl_bot::db::{make_database_url, Chat, User};

fn user(username: Option<&str>) -> User {
    User {
        id: 1,
        tg_id: 123456789,
        username: username.map(|s| s.to_string()),
        first_name: "Ivan".to_string(),
        last_name: None,
        can_download: false,
        is_admin: false,
        has_private_chat: true,
    }
}

#[test]
fn user_names() {
    assert_eq!(user(Some("ivan_dl")).username_or_name(), "ivan_dl");
    assert_eq!(user(None).username_or_name(), "Ivan");
    assert_eq!(user(Some("ivan_dl")).to_text(), "123456789 - ivan_dl");
    assert_eq!(user(None).to_text(), "123456789 - Ivan");
}

#[test]
fn chat_names() {
    let mut chat = Chat { id: 2, tg_id: -100123, username: None, title: "Group".to_string(), can_download: false };
    assert_eq!(chat.username_or_title(), "Group");
    assert_eq!(chat.to_text(), "-100123 - Group");
    chat.username = Some("grp".to_string());
    assert_eq!(chat.username_or_title(), "grp");
    assert_eq!(chat.to_text(), "-100123 - grp");
}

#[test]
fn database_urls() {
    assert_eq!(make_database_url("bot", "secret", "db:5432", "mkdl"), "postgres://bot:secret@db:5432/mkdl");
    assert_eq!(make_sqlite_url(VAR_LIB_DEBUG), "sqlite://./mk-dl-bot.db");
    assert_eq!(make_sqlite_url(VAR_LIB_RELEASE), "sqlite:///var/lib/mk-dl-bot/mk-dl-bot.db");
    assert_eq!(make_log_path(VAR_LOG_DEBUG), "./mk-dl-bot.log");
    assert_eq!(make_log_path(VAR_LOG_RELEASE), "/var/log/mk-dl-bot/mk-dl-bot.log");
}
