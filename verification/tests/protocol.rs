use reaction_bot::auth::{
    announced, challenge_answer, classify_auth_event, read_auth_event, AuthError, AuthEvent,
    AuthStep, Authorization, AuthorizationState, Challenge, MAX_AUTH_ATTEMPTS,
};
use reaction_bot::client::{library_candidates, ClientError, LibrarySearch, SearchAction};
use reaction_bot::event_loop::{
    admin_command, assemble_message, confirms_reaction, dispatch, dispatch_message,
    is_confirmation, parse_id_list, read_message, ChatAllowList,
    Dispatch, EventLoop, IncomingMessage, LoopAction, AUTH_POLL_MILLIS, STEADY_POLL_MILLIS,
};
use reaction_bot::filter::FilterSettings;
use reaction_bot::json::{field, integer_at, object, parse, render, text, text_at, Json};
use reaction_bot::price::price_regex;
use reaction_bot::requests::{
    client_parameters_request, files_directory, legacy_reaction, log_verbosity_request,
    reaction_requests, ready_requests, send_message, typed_reaction, unique, REACTION_EMOJI,
    STORAGE_NOTICE,
};
use serde_json::Value;

fn value(raw: &str) -> Value {
    serde_json::from_str(raw).unwrap()
}

fn filters(bank: Option<&str>, requisite: Option<&str>, min_amount: i32) -> FilterSettings {
    FilterSettings {
        bank_filter: bank.map(String::from),
        requisite_filter: requisite.map(String::from),
        min_amount,
    }
}

fn new_message(chat_id: i64, message_id: i64, body: &str) -> String {
    let mut text = serde_json::Map::new();
    text.insert("text".to_string(), Value::from(body));
    let mut content = serde_json::Map::new();
    content.insert("text".to_string(), Value::Object(text));
    let mut message = serde_json::Map::new();
    message.insert("chat_id".to_string(), Value::from(chat_id));
    message.insert("id".to_string(), Value::from(message_id));
    message.insert("content".to_string(), Value::Object(content));
    let mut update = serde_json::Map::new();
    update.insert("@type".to_string(), Value::from("updateNewMessage"));
    update.insert("message".to_string(), Value::Object(message));
    Value::Object(update).to_string()
}

fn incoming(chat_id: i64, message_id: Option<i64>, text: &str) -> IncomingMessage {
    IncomingMessage { chat_id, message_id, text: text.to_string() }
}

fn state_update(name: &str) -> String {
    format!("{{\"@type\":\"updateAuthorizationState\",\"authorization_state\":{{\"@type\":\"{name}\"}}}}")
}

#[test]
fn render_writes_compact_json_with_sorted_keys() {
    let doc = object(vec![
        field("b", Json::Integer(-7)),
        field("a", text("x\"y\n")),
        field("c", object(vec![field("d", Json::Flag(true))])),
    ]);
    assert_eq!(render(&doc), "{\"a\":\"x\\\"y\\n\",\"b\":-7,\"c\":{\"d\":true}}");
    assert_eq!(render(&Json::Integer(i64::MIN)), "-9223372036854775808");
    assert_eq!(render(&text("👍")), "\"👍\"");
    assert_eq!(render(&object(Vec::new())), "{}");
}

#[test]
fn render_keeps_the_later_of_two_equal_keys() {
    let doc = object(vec![field("a", Json::Integer(1)), field("a", Json::Integer(2))]);
    assert_eq!(render(&doc), "{\"a\":2}");
}

#[test]
fn lookups_follow_json_pointers() {
    let doc = parse("{\"a\":{\"b\":\"c\",\"n\":5,\"f\":1.5,\"big\":18446744073709551615},\"s\":\"t\"}")
        .unwrap();
    assert_eq!(text_at(&doc, "/a/b").as_deref(), Some("c"));
    assert_eq!(text_at(&doc, "/s").as_deref(), Some("t"));
    assert_eq!(text_at(&doc, "/a/n"), None);
    assert_eq!(text_at(&doc, "/a/missing"), None);
    assert_eq!(text_at(&doc, "/s/deeper"), None);
    assert_eq!(integer_at(&doc, "/a/n"), Some(5));
    assert_eq!(integer_at(&doc, "/a/f"), None);
    assert_eq!(integer_at(&doc, "/a/big"), None);
    assert_eq!(integer_at(&doc, "/a/b"), None);
    assert_eq!(integer_at(&doc, "/nope"), None);
}

#[test]
fn parse_rejects_what_is_not_json() {
    assert!(parse("not json").is_none());
    assert!(parse("").is_none());
    assert!(parse("{\"a\":1} trailing").is_none());
    assert_eq!(parse("{\"a\":1}"), Some(value("{\"a\": 1}")));
}

#[test]
fn reaction_dispatch_produces_two_distinct_payloads() {
    let (typed, legacy) = reaction_requests(1, 2);
    assert_ne!(typed, legacy);
    assert_eq!(
        typed,
        "{\"@type\":\"addMessageReaction\",\"chat_id\":1,\"is_big\":false,\"message_id\":2,\"reaction_type\":{\"@type\":\"reactionTypeEmoji\",\"emoji\":\"👍\"}}"
    );
    assert_eq!(
        legacy,
        "{\"@type\":\"addMessageReaction\",\"chat_id\":1,\"is_big\":false,\"message_id\":2,\"reaction\":\"👍\"}"
    );
    for payload in [&typed, &legacy] {
        let doc = value(payload);
        assert_eq!(doc["@type"], "addMessageReaction");
        assert_eq!(doc["chat_id"], 1);
        assert_eq!(doc["message_id"], 2);
        assert_eq!(doc["is_big"], false);
    }
    let typed = value(&typed);
    assert_eq!(typed["reaction_type"]["@type"], "reactionTypeEmoji");
    assert_eq!(typed["reaction_type"]["emoji"], REACTION_EMOJI);
    assert!(typed.get("reaction").is_none());
    let legacy = value(&legacy);
    assert_eq!(legacy["reaction"], REACTION_EMOJI);
    assert!(legacy.get("reaction_type").is_none());
}

#[test]
fn reaction_requests_carry_any_identifiers() {
    for (chat, message) in [(-1001234567890i64, 987654321012i64), (0, 0), (i64::MAX, i64::MIN)] {
        let typed = value(&render(&typed_reaction(chat, message)));
        let legacy = value(&render(&legacy_reaction(chat, message)));
        assert_eq!(typed["chat_id"].as_i64(), Some(chat));
        assert_eq!(typed["message_id"].as_i64(), Some(message));
        assert_eq!(legacy["chat_id"].as_i64(), Some(chat));
        assert_eq!(legacy["message_id"].as_i64(), Some(message));
        assert_ne!(typed, legacy);
    }
}

#[test]
fn send_message_wraps_the_text() {
    let doc = value(&send_message(42, "hi \"there\""));
    assert_eq!(doc["@type"], "sendMessage");
    assert_eq!(doc["chat_id"], 42);
    assert_eq!(doc["input_message_content"]["@type"], "inputMessageText");
    assert_eq!(doc["input_message_content"]["text"]["@type"], "formattedText");
    assert_eq!(doc["input_message_content"]["text"]["text"], "hi \"there\"");
}

#[test]
fn startup_requests_have_their_shapes() {
    assert_eq!(
        log_verbosity_request(),
        "{\"@type\":\"setLogVerbosityLevel\",\"new_verbosity_level\":0}"
    );
    let doc = value(&client_parameters_request("tdlib_data//", 12345, "hash"));
    assert_eq!(doc["@type"], "setTdlibParameters");
    assert_eq!(doc["database_directory"], "tdlib_data//");
    assert_eq!(doc["files_directory"], "tdlib_data_files");
    assert_eq!(doc["database_encryption_key"], "");
    assert_eq!(doc["use_test_dc"], false);
    assert_eq!(doc["api_id"], 12345);
    assert_eq!(doc["api_hash"], "hash");
    assert_eq!(doc["system_language_code"], "en");
    assert_eq!(doc["device_model"], "ReactionBot");
    assert_eq!(doc["system_version"], "1.0");
    assert_eq!(doc["application_version"], "1.0");
    assert_eq!(doc["enable_storage_optimizer"], true);
    assert_eq!(doc["ignore_file_names"], false);
    assert_eq!(doc["use_file_database"], true);
    assert_eq!(doc["use_chat_info_database"], true);
    assert_eq!(doc["use_message_database"], true);
    assert_eq!(doc["use_secret_chats"], false);
    assert_eq!(doc.as_object().unwrap().len(), 17);
}

#[test]
fn files_directory_strips_trailing_slashes() {
    assert_eq!(files_directory("tdlib_data"), "tdlib_data_files");
    assert_eq!(files_directory("/var/td/"), "/var/td_files");
    assert_eq!(files_directory("///"), "_files");
    assert_eq!(files_directory(""), "_files");
}

#[test]
fn ready_requests_ask_for_chats_then_reactions() {
    let payloads = ready_requests(&vec![5, -6]);
    assert_eq!(
        payloads,
        vec![
            "{\"@type\":\"getChats\",\"limit\":100}".to_string(),
            "{\"@type\":\"getChatAvailableReactions\",\"chat_id\":5}".to_string(),
            "{\"@type\":\"getChatAvailableReactions\",\"chat_id\":-6}".to_string(),
        ]
    );
    assert_eq!(ready_requests(&Vec::new()).len(), 1);
}

#[test]
fn ready_requests_ask_once_for_a_chat_listed_twice() {
    assert_eq!(ready_requests(&vec![5, 5]), ready_requests(&vec![5]));
    assert_eq!(ready_requests(&vec![5, -6, 5, 7, -6]), ready_requests(&vec![5, -6, 7]));
    assert_eq!(unique(&vec![3, 1, 3, 2, 1]), vec![3, 1, 2]);
    assert_eq!(unique(&Vec::new()), Vec::<i64>::new());
}

#[test]
fn announced_states_are_recognised_by_name() {
    assert_eq!(
        announced("authorizationStateWaitTdlibParameters"),
        Some(AuthorizationState::WaitParameters)
    );
    assert_eq!(
        announced("authorizationStateWaitPhoneNumber"),
        Some(AuthorizationState::WaitPhoneNumber)
    );
    assert_eq!(announced("authorizationStateWaitCode"), Some(AuthorizationState::WaitCode));
    assert_eq!(announced("authorizationStateWaitPassword"), Some(AuthorizationState::WaitPassword));
    assert_eq!(announced("authorizationStateReady"), Some(AuthorizationState::Ready));
    assert_eq!(announced("authorizationStateClosed"), None);
    assert_eq!(announced(""), None);
}

#[test]
fn auth_events_are_classified_by_type() {
    assert_eq!(
        classify_auth_event(Some("updateAuthorizationState"), Some("authorizationStateWaitCode")),
        AuthEvent::StateUpdate(Some(AuthorizationState::WaitCode))
    );
    assert_eq!(
        classify_auth_event(Some("updateAuthorizationState"), None),
        AuthEvent::StateUpdate(None)
    );
    assert_eq!(classify_auth_event(Some("error"), None), AuthEvent::Error);
    assert_eq!(classify_auth_event(Some("updateOption"), Some("x")), AuthEvent::Other);
    assert_eq!(classify_auth_event(None, Some("authorizationStateReady")), AuthEvent::Other);
    assert_eq!(
        read_auth_event(&state_update("authorizationStateReady")),
        AuthEvent::StateUpdate(Some(AuthorizationState::Ready))
    );
    assert_eq!(read_auth_event("{\"@type\":\"error\",\"message\":\"x\"}"), AuthEvent::Error);
    assert_eq!(read_auth_event("garbage"), AuthEvent::Other);
    assert_eq!(read_auth_event("{\"@type\":5}"), AuthEvent::Other);
}

#[test]
fn login_walks_through_the_challenges() {
    let mut login = Authorization::new();
    assert_eq!(login.state(), AuthorizationState::WaitParameters);
    assert_eq!(login.on_payload(None), AuthStep::Continue);
    assert_eq!(
        login.on_payload(Some(&state_update("authorizationStateWaitTdlibParameters"))),
        AuthStep::Continue
    );
    assert_eq!(
        login.on_payload(Some(&state_update("authorizationStateWaitPhoneNumber"))),
        AuthStep::Ask(Challenge::PhoneNumber)
    );
    assert_eq!(login.state(), AuthorizationState::WaitPhoneNumber);
    assert_eq!(
        login.on_payload(Some(&state_update("authorizationStateWaitCode"))),
        AuthStep::Ask(Challenge::Code)
    );
    assert_eq!(
        login.on_payload(Some(&state_update("authorizationStateWaitPassword"))),
        AuthStep::Ask(Challenge::Password)
    );
    assert_eq!(login.on_payload(Some("{\"@type\":\"updateOption\"}")), AuthStep::Continue);
    assert_eq!(login.state(), AuthorizationState::WaitPassword);
    assert_eq!(
        login.on_payload(Some(&state_update("authorizationStateReady"))),
        AuthStep::Ready
    );
    assert_eq!(login.state(), AuthorizationState::Ready);
    assert_eq!(login.attempts(), 0);
    assert_eq!(login.on_payload(Some("{\"@type\":\"error\"}")), AuthStep::Ready);
    assert_eq!(login.attempts(), 0);
}

#[test]
fn login_fails_at_the_third_error() {
    let mut login = Authorization::new();
    assert_eq!(MAX_AUTH_ATTEMPTS, 3);
    assert_eq!(login.step(AuthEvent::Error), AuthStep::Continue);
    assert_eq!(login.step(AuthEvent::Other), AuthStep::Continue);
    assert_eq!(login.step(AuthEvent::StateUpdate(None)), AuthStep::Continue);
    assert_eq!(login.attempts(), 1);
    assert_eq!(
        login.step(AuthEvent::StateUpdate(Some(AuthorizationState::WaitCode))),
        AuthStep::Ask(Challenge::Code)
    );
    assert_eq!(login.step(AuthEvent::Error), AuthStep::Continue);
    assert_eq!(login.state(), AuthorizationState::WaitCode);
    assert_eq!(login.step(AuthEvent::Error), AuthStep::Failed(AuthError::AuthExhausted));
    assert_eq!(login.attempts(), 3);
    assert_eq!(login.state(), AuthorizationState::Error);
    assert_eq!(
        login.step(AuthEvent::StateUpdate(Some(AuthorizationState::Ready))),
        AuthStep::Failed(AuthError::AuthExhausted)
    );
    assert_eq!(login.state(), AuthorizationState::Error);
}

#[test]
fn challenge_answers_carry_the_trimmed_input() {
    assert_eq!(
        challenge_answer(Challenge::PhoneNumber, " +1234567890\n"),
        "{\"@type\":\"setAuthenticationPhoneNumber\",\"phone_number\":\"+1234567890\"}"
    );
    assert_eq!(
        challenge_answer(Challenge::Code, "12345\r\n"),
        "{\"@type\":\"checkAuthenticationCode\",\"code\":\"12345\"}"
    );
    assert_eq!(
        challenge_answer(Challenge::Password, "pa ss\n"),
        "{\"@type\":\"checkAuthenticationPassword\",\"password\":\"pa ss\"}"
    );
}

#[test]
fn id_lists_skip_what_is_no_identifier() {
    assert_eq!(parse_id_list("1, -1001234567890 ,x,,3"), vec![1, -1001234567890, 3]);
    assert_eq!(parse_id_list(""), Vec::<i64>::new());
    assert_eq!(parse_id_list("7"), vec![7]);
    assert_eq!(parse_id_list("1 2,3"), vec![3]);
    assert_eq!(parse_id_list("9223372036854775808,5,5"), vec![5, 5]);
}

#[test]
fn allow_list_holds_the_listed_chats() {
    let list = ChatAllowList::from_config("10, 20,oops");
    assert!(list.contains(10));
    assert!(list.contains(20));
    assert!(!list.contains(30));
    assert!(!ChatAllowList::new(&Vec::new()).contains(0));
}

#[test]
fn admin_commands_are_exact_tokens() {
    for command in ["/list", " /list\n", "/list@reaction_bot", "/clear", "/clear@reaction_bot "] {
        assert!(admin_command(command), "{command:?}");
    }
    for other in ["/lists", "list", "/list now", "/LIST", "", "/clear@other_bot"] {
        assert!(!admin_command(other), "{other:?}");
    }
}

#[test]
fn dispatch_message_follows_the_routing_rules() {
    let allowed = ChatAllowList::new(&vec![1]);
    let f = filters(None, None, 38000);
    let body = "Сумма: 50 000 ₽";
    match dispatch_message(&incoming(1, Some(2), body), Some(50000), &allowed, &f) {
        Dispatch::React(chat_id, message_id, typed, legacy) => {
            assert_eq!((chat_id, message_id), (1, 2));
            assert_eq!((typed, legacy), reaction_requests(1, 2));
        }
        _ => panic!("expected a reaction"),
    }
    assert!(matches!(dispatch_message(&incoming(9, Some(2), body), Some(50000), &allowed, &f), Dispatch::Ignore));
    assert!(matches!(dispatch_message(&incoming(1, None, body), Some(50000), &allowed, &f), Dispatch::Ignore));
    assert!(matches!(dispatch_message(&incoming(1, Some(2), body), Some(100), &allowed, &f), Dispatch::Ignore));
    assert!(matches!(dispatch_message(&incoming(1, Some(2), body), None, &allowed, &f), Dispatch::Ignore));
    match dispatch_message(&incoming(9, None, " /list "), None, &allowed, &f) {
        Dispatch::Reply(payload) => assert_eq!(payload, send_message(9, STORAGE_NOTICE)),
        _ => panic!("expected a reply"),
    }
}

#[test]
fn dispatch_reads_the_update_document() {
    let re = price_regex().unwrap();
    let allowed = ChatAllowList::new(&vec![1]);
    let f = filters(None, None, 38000);
    match dispatch(&new_message(1, 2, "Сумма: 50 000 ₽"), &allowed, &f, &re) {
        Dispatch::React(1, 2, typed, legacy) => {
            assert_eq!((typed, legacy), reaction_requests(1, 2))
        }
        _ => panic!("expected a reaction"),
    }
    assert!(matches!(dispatch(&new_message(1, 2, "Сумма: 5 ₽"), &allowed, &f, &re), Dispatch::Ignore));
    assert!(matches!(dispatch(&new_message(3, 2, "Сумма: 50 000 ₽"), &allowed, &f, &re), Dispatch::Ignore));
    assert!(matches!(dispatch("not json", &allowed, &f, &re), Dispatch::Ignore));
    assert!(matches!(dispatch("{\"@type\":\"updateOption\"}", &allowed, &f, &re), Dispatch::Ignore));
    assert!(matches!(
        dispatch("{\"@type\":\"updateNewMessage\",\"message\":{\"chat_id\":1,\"id\":2}}", &allowed, &f, &re),
        Dispatch::Ignore
    ));
    assert!(matches!(
        dispatch(
            "{\"@type\":\"updateNewMessage\",\"message\":{\"id\":2,\"content\":{\"text\":{\"text\":\"/list\"}}}}",
            &allowed,
            &f,
            &re
        ),
        Dispatch::Ignore
    ));
    match dispatch(&new_message(77, 2, "/clear"), &allowed, &f, &re) {
        Dispatch::Reply(payload) => {
            let doc = value(&payload);
            assert_eq!(doc["chat_id"], 77);
            assert_eq!(doc["input_message_content"]["text"]["text"], STORAGE_NOTICE);
        }
        _ => panic!("expected a reply"),
    }
}

#[test]
fn messages_are_assembled_from_what_a_document_holds() {
    let full = assemble_message(Some("updateNewMessage"), Some(1), Some(2), Some("hi".to_string()))
        .unwrap();
    assert_eq!((full.chat_id, full.message_id, full.text.as_str()), (1, Some(2), "hi"));
    let bare = assemble_message(Some("updateNewMessage"), Some(1), None, Some(String::new()))
        .unwrap();
    assert_eq!((bare.chat_id, bare.message_id, bare.text.as_str()), (1, None, ""));
    assert!(assemble_message(Some("updateNewMessage"), None, Some(2), Some("hi".to_string())).is_none());
    assert!(assemble_message(Some("updateNewMessage"), Some(1), Some(2), None).is_none());
    assert!(assemble_message(Some("updateChat"), Some(1), Some(2), Some("hi".to_string())).is_none());
    assert!(assemble_message(None, Some(1), Some(2), Some("hi".to_string())).is_none());
}

#[test]
fn read_message_follows_the_update_layout() {
    let message = read_message(&value(&new_message(-100, 7, "Банк: Сбер"))).unwrap();
    assert_eq!(message.chat_id, -100);
    assert_eq!(message.message_id, Some(7));
    assert_eq!(message.text, "Банк: Сбер");
    assert!(read_message(&value("{\"@type\":\"updateNewMessage\"}")).is_none());
    assert!(read_message(&value("[1,2]")).is_none());
    let photo = "{\"@type\":\"updateNewMessage\",\"message\":{\"chat_id\":1,\"id\":2,\"content\":{\"@type\":\"messagePhoto\"}}}";
    assert!(read_message(&value(photo)).is_none());
}

#[test]
fn is_confirmation_needs_the_very_message() {
    assert!(is_confirmation(Some("ok"), None, None, 1, 2));
    assert!(is_confirmation(Some("updateMessageReactions"), Some(1), Some(2), 1, 2));
    assert!(!is_confirmation(Some("updateMessageReactions"), Some(2), Some(1), 1, 2));
    assert!(!is_confirmation(Some("updateMessageReactions"), None, Some(2), 1, 2));
    assert!(!is_confirmation(Some("error"), Some(1), Some(2), 1, 2));
    assert!(!is_confirmation(None, Some(1), Some(2), 1, 2));
}

#[test]
fn confirmation_is_an_ok_or_the_matching_update() {
    assert!(confirms_reaction("{\"@type\":\"ok\"}", 1, 2));
    assert!(confirms_reaction(
        "{\"@type\":\"updateMessageReactions\",\"chat_id\":1,\"message_id\":2}",
        1,
        2
    ));
    assert!(!confirms_reaction(
        "{\"@type\":\"updateMessageReactions\",\"chat_id\":1,\"message_id\":3}",
        1,
        2
    ));
    assert!(!confirms_reaction("{\"@type\":\"updateMessageReactions\",\"chat_id\":1}", 1, 2));
    assert!(!confirms_reaction("{\"@type\":\"error\"}", 1, 2));
    assert!(!confirms_reaction("junk", 1, 2));
}

#[test]
fn event_loop_logs_in_then_dispatches() {
    let re = price_regex().unwrap();
    let mut event_loop = EventLoop::new(vec![1, 5], filters(None, None, 38000));
    assert!(!event_loop.is_steady());
    assert_eq!(event_loop.poll_millis(), AUTH_POLL_MILLIS);
    assert!(matches!(event_loop.on_payload(None, &re), LoopAction::Poll));
    assert!(matches!(
        event_loop.on_payload(Some(&new_message(1, 2, "Сумма: 50 000 ₽")), &re),
        LoopAction::Poll
    ));
    assert!(matches!(
        event_loop.on_payload(Some(&state_update("authorizationStateWaitCode")), &re),
        LoopAction::Ask(Challenge::Code)
    ));
    match event_loop.on_payload(Some(&state_update("authorizationStateReady")), &re) {
        LoopAction::Send(payloads) => assert_eq!(payloads, ready_requests(&vec![1, 5])),
        _ => panic!("expected the ready requests"),
    }
    assert!(event_loop.is_steady());
    assert_eq!(event_loop.poll_millis(), STEADY_POLL_MILLIS);
    match event_loop.on_payload(Some(&new_message(5, 9, "Сумма: 50 000 ₽")), &re) {
        LoopAction::React(chat_id, message_id, typed, legacy) => {
            assert_eq!((chat_id, message_id), (5, 9));
            assert_eq!((typed, legacy), reaction_requests(5, 9));
        }
        _ => panic!("expected a reaction"),
    }
    match event_loop.on_payload(Some(&new_message(8, 9, "/list")), &re) {
        LoopAction::Send(payloads) => assert_eq!(payloads, vec![send_message(8, STORAGE_NOTICE)]),
        _ => panic!("expected a reply"),
    }
    assert!(matches!(event_loop.on_payload(Some("{\"@type\":\"error\"}"), &re), LoopAction::Poll));
    assert!(matches!(event_loop.on_payload(None, &re), LoopAction::Poll));
    assert!(event_loop.is_steady());
}

#[test]
fn event_loop_gives_up_after_three_errors() {
    let re = price_regex().unwrap();
    let mut event_loop = EventLoop::new(Vec::new(), filters(None, None, 38000));
    let error = "{\"@type\":\"error\",\"message\":\"PHONE_NUMBER_INVALID\"}";
    assert!(matches!(event_loop.on_payload(Some(error), &re), LoopAction::Poll));
    assert!(matches!(event_loop.on_payload(Some(error), &re), LoopAction::Poll));
    assert!(matches!(
        event_loop.on_payload(Some(error), &re),
        LoopAction::Fail(AuthError::AuthExhausted)
    ));
    assert!(matches!(
        event_loop.on_payload(Some(&state_update("authorizationStateReady")), &re),
        LoopAction::Fail(AuthError::AuthExhausted)
    ));
    assert!(!event_loop.is_steady());
}

#[test]
fn library_candidates_start_with_the_explicit_location() {
    assert_eq!(
        library_candidates(Some("/x/libtdjson.so".to_string()), false),
        vec!["/x/libtdjson.so", "/usr/local/lib/libtdjson.so", "/usr/lib/libtdjson.so", "./libtdjson.so"]
    );
    assert_eq!(
        library_candidates(None, true),
        vec![
            "/usr/local/lib/libtdjson.dylib",
            "/opt/homebrew/lib/libtdjson.dylib",
            "./libtdjson.dylib"
        ]
    );
}

#[test]
fn library_search_uses_the_first_usable_location() {
    let (mut search, first) = LibrarySearch::start(Some("/x/lib.so".to_string()), false);
    assert!(matches!(first, SearchAction::Probe(path) if path == "/x/lib.so"));
    assert!(matches!(search.on_probe(false), SearchAction::Probe(path) if path == "/usr/local/lib/libtdjson.so"));
    assert!(matches!(search.on_probe(false), SearchAction::Probe(path) if path == "/usr/lib/libtdjson.so"));
    assert!(matches!(search.on_probe(true), SearchAction::Use(path) if path == "/usr/lib/libtdjson.so"));
}

#[test]
fn library_search_fails_when_nothing_is_usable() {
    let (mut search, _) = LibrarySearch::start(None, true);
    assert!(matches!(search.on_probe(false), SearchAction::Probe(_)));
    assert!(matches!(search.on_probe(false), SearchAction::Probe(_)));
    assert!(matches!(search.on_probe(false), SearchAction::Fail(ClientError::ClientUnavailable)));
    assert!(matches!(search.on_probe(true), SearchAction::Fail(ClientError::ClientUnavailable)));
}
