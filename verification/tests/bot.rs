use mk_dl_bot::bot::op::{op_decision, OpReply};
use mk_dl_bot::bot::reply::{Notice, Reply};
use mk_dl_bot::bot::request::{
    admin_gate, approve_actions, check_request_text, decline_actions, format_request_list,
    request_decision, review_id,
};
use mk_dl_bot::bot::request_chat::{
    approve_chat_actions, chat_request_decision, decline_chat_actions, format_chat_request_list,
    review_chat_id,
};
use mk_dl_bot::bot::review::{
    review_begin, review_step, LookupOutcome, ReviewAction, ReviewEvent, ReviewKind, ReviewState,
};
use mk_dl_bot::bot::start::{bot_joins, start_decision, StartAction};
use mk_dl_bot::db::{Chat, RequestChatWithChat, RequestWithUser, User};
use mk_dl_bot::log::TeloxideNoiseFilter;
use mk_dl_bot::util::{parse_env, EnvError};

fn user(can_download: bool, is_admin: bool, has_private_chat: bool) -> User {
    User {
        id: 3,
        tg_id: 42,
        username: Some("u".to_string()),
        first_name: "F".to_string(),
        last_name: None,
        can_download,
        is_admin,
        has_private_chat,
    }
}

fn chat(can_download: bool) -> Chat {
    Chat { id: 5, tg_id: -77, username: None, title: "T".to_string(), can_download }
}

#[test]
fn request_texts() {
    assert_eq!(check_request_text("too short"), Some(Reply::RequestTextIsTooShort));
    assert_eq!(check_request_text("exactly sixteen!"), None);
    assert_eq!(check_request_text(&"x".repeat(100)), None);
    assert_eq!(check_request_text(&"x".repeat(101)), Some(Reply::RequestTextIsTooLong));
    // Eight two-byte letters are sixteen bytes.
    assert_eq!(check_request_text("абвгдежз"), None);
    assert_eq!(check_request_text("абвгдеж"), Some(Reply::RequestTextIsTooShort));
}

#[test]
fn request_decisions() {
    assert_eq!(request_decision(&user(true, false, false), 0), Reply::AlreadyCanDownload);
    assert_eq!(request_decision(&user(false, false, false), 1), Reply::AlreadyHasRequested);
    assert_eq!(request_decision(&user(false, false, false), 0), Reply::RequestAdded);
    assert_eq!(chat_request_decision(&chat(true), 0), Reply::ChatAlreadyCanDownload);
    assert_eq!(chat_request_decision(&chat(false), 2), Reply::ChatAlreadyHasRequested);
    assert_eq!(chat_request_decision(&chat(false), 0), Reply::ChatRequestAdded);
    assert_eq!(Reply::ChatRequestAdded.key(), "chat_request_added");
    assert_eq!(Reply::NotValidInteger.key(), "not_valid_integer");
}

#[test]
fn reviews() {
    assert_eq!(review_id("17"), Ok(17));
    assert_eq!(review_id("x17"), Err(Reply::NotValidInteger));
    assert_eq!(review_id("2147483648"), Err(Reply::NotValidInteger));
    assert_eq!(review_id("-2147483648"), Ok(i32::MIN));
    assert_eq!(review_chat_id("-3"), Ok(-3));
    assert_eq!(review_chat_id("3000000000"), Err(Reply::NotValidInteger));
    assert_eq!(admin_gate(&user(false, true, false)), Ok(()));
    assert_eq!(admin_gate(&user(false, false, false)), Err(Reply::NotAnAdmin));
    let r = RequestWithUser { request_id: 9, message: "please".to_string(), user: user(false, false, true) };
    let a = approve_actions(&r);
    assert_eq!(a.reply, Some(Reply::RequestApproved));
    assert_eq!(a.notify, Some(Notice { tg_id: 42, reply: Reply::YourRequestApproved }));
    let r2 = RequestWithUser { request_id: 9, message: "please".to_string(), user: user(false, false, false) };
    assert_eq!(decline_actions(&r2).notify, None);
    assert_eq!(decline_actions(&r2).reply, Some(Reply::RequestDeclined));
    let c = RequestChatWithChat { request_id: 4, message: "m".to_string(), chat: chat(false) };
    assert_eq!(approve_chat_actions(&c).reply, None);
    assert_eq!(approve_chat_actions(&c).notify, Some(Notice { tg_id: -77, reply: Reply::ChatRequestApproved }));
    assert_eq!(decline_chat_actions(&c).reply, Some(Reply::RequestDeclined));
}

#[test]
fn request_lists() {
    let rs = vec![
        RequestWithUser { request_id: 1, message: "let me in".to_string(), user: user(false, false, false) },
        RequestWithUser { request_id: 2, message: "me too".to_string(), user: User { username: None, ..user(false, false, false) } },
    ];
    assert_eq!(format_request_list("Requests:\n", &rs), "Requests:\n1: 42 - u: let me in\n2: 42 - F: me too\n");
    assert_eq!(format_request_list("H", &[]), "H");
    let cs = vec![RequestChatWithChat { request_id: 7, message: "ours".to_string(), chat: chat(false) }];
    assert_eq!(format_chat_request_list("Chats:\n", &cs), "Chats:\n7: -77 - T: ours\n");
}

#[test]
fn op_and_start() {
    assert_eq!(op_decision(0), OpReply::MadeAdmin);
    assert_eq!(op_decision(1), OpReply::Refused);
    assert_eq!(OpReply::MadeAdmin.text(), "Now you're an admin");
    assert_eq!(OpReply::Refused.text(), "You can't do that anymore");
    assert_eq!(start_decision(true, true, false), StartAction::PrivateUser);
    assert_eq!(start_decision(true, false, false), StartAction::Nothing);
    assert_eq!(start_decision(false, true, true), StartAction::PublicChat);
    assert_eq!(start_decision(false, true, false), StartAction::Nothing);
    assert_eq!(bot_joins(&[1, 7, 3, 7], 7), 2);
    assert_eq!(bot_joins(&[], 7), 0);
}

#[test]
fn settings_and_log_filter() {
    assert_eq!(parse_env::<u64>("POLLING_TIMEOUT", Some("10")).ok(), Some(10));
    assert_eq!(parse_env::<u8>("POLLING_LIMIT", Some("100")).ok(), Some(100));
    match parse_env::<u8>("POLLING_LIMIT", Some("300")) {
        Err(e @ EnvError::ParseError(_)) => assert_eq!(e.message(), "env 'POLLING_LIMIT' parse error"),
        _ => panic!("expected a parse error"),
    }
    match parse_env::<u64>("BOT_X", None) {
        Err(e @ EnvError::NotDefined(_)) => assert_eq!(e.message(), "env 'BOT_X' variable not defined"),
        _ => panic!("expected an undefined variable"),
    }
    let f = TeloxideNoiseFilter {};
    assert!(!f.enabled(Some("teloxide::error_handlers")));
    assert!(f.enabled(Some("teloxide::dispatching")));
    assert!(f.enabled(None));
}

fn run_review(kind: ReviewKind, text: &str, sender: bool, is_admin: bool, lookup: LookupOutcome) -> (Vec<ReviewAction>, ReviewAction) {
    let (mut state, mut action) = review_begin(text);
    let mut seen = Vec::new();
    loop {
        let event = match action {
            ReviewAction::InspectSender => ReviewEvent::Sender { present: sender },
            ReviewAction::LoadUser => ReviewEvent::User { is_admin },
            ReviewAction::Lookup { .. } => ReviewEvent::Lookup { outcome: lookup },
            last => return (seen, last),
        };
        seen.push(action);
        let (s, a) = review_step(kind, state, event);
        state = s;
        action = a;
    }
}

#[test]
fn review_order() {
    let (_, last) = run_review(ReviewKind::User, "2147483648", true, true, LookupOutcome::Found);
    assert_eq!(last, ReviewAction::Answer { reply: Reply::NotValidInteger });
    let (_, last) = run_review(ReviewKind::User, "12", false, true, LookupOutcome::Found);
    assert_eq!(last, ReviewAction::Stop);
    let (seen, last) = run_review(ReviewKind::Chat, "12", true, false, LookupOutcome::Found);
    assert_eq!(seen, vec![ReviewAction::InspectSender, ReviewAction::LoadUser]);
    assert_eq!(last, ReviewAction::Answer { reply: Reply::NotAnAdmin });
    let (seen, last) = run_review(ReviewKind::User, "12", true, true, LookupOutcome::Found);
    assert_eq!(seen, vec![ReviewAction::InspectSender, ReviewAction::LoadUser, ReviewAction::Lookup { id: 12 }]);
    assert_eq!(last, ReviewAction::Apply { id: 12 });
    let (_, last) = run_review(ReviewKind::User, "12", true, true, LookupOutcome::NotFound);
    assert_eq!(last, ReviewAction::Answer { reply: Reply::RequestNotFound });
    let (_, last) = run_review(ReviewKind::Chat, "12", true, true, LookupOutcome::NotFound);
    assert_eq!(last, ReviewAction::Answer { reply: Reply::ChatRequestNotFound });
    let (_, last) = run_review(ReviewKind::Chat, "12", true, true, LookupOutcome::Failed);
    assert_eq!(last, ReviewAction::Fail);
    let (state, action) = review_step(ReviewKind::User, ReviewState::Finished, ReviewEvent::Sender { present: true });
    assert_eq!((state, action), (ReviewState::Finished, ReviewAction::Stop));
}

#[test]
fn settings_of_every_integer_type() {
    assert_eq!(parse_env::<u16>("N", Some("42")).ok(), Some(42u16));
    assert!(matches!(parse_env::<u16>("N", Some("x")), Err(EnvError::ParseError(_))));
    assert!(matches!(parse_env::<u16>("N", None), Err(EnvError::NotDefined(_))));
    assert_eq!(parse_env::<u32>("N", Some("4294967295")).ok(), Some(u32::MAX));
    assert_eq!(parse_env::<usize>("N", Some("7")).ok(), Some(7usize));
    assert_eq!(parse_env::<i8>("N", Some("-128")).ok(), Some(i8::MIN));
    assert_eq!(parse_env::<i16>("N", Some("+300")).ok(), Some(300i16));
    assert_eq!(parse_env::<i32>("N", Some("-5")).ok(), Some(-5i32));
    assert_eq!(parse_env::<i64>("N", Some("9")).ok(), Some(9i64));
    assert_eq!(parse_env::<isize>("N", Some("-9")).ok(), Some(-9isize));
}
