use sinner_saint::inline::{make_result, results_from_items, InlineButton, InlineItem};
use sinner_saint::model::{InlineResponse, PluginResponse, SwitchPm, TriggerEvent};
use sinner_saint::normalize::{normalize, RawChat, RawChatKind, RawEvent, RawMessage, RawUser};
use sinner_saint::router::{
    alert_fallback, route_callback, route_chosen, route_inline, route_message, CallbackAction,
    CallbackOrigin, ChosenAction, MessageAction, MessageRef,
};

fn item(id: &str, bt: Option<&str>, bd: Option<&str>) -> InlineItem {
    InlineItem {
        id: id.to_string(),
        title: "T".to_string(),
        message: "M".to_string(),
        button_text: bt.map(|s| s.to_string()),
        button_data: bd.map(|s| s.to_string()),
    }
}

fn origin(inline: Option<&str>, message: Option<MessageRef>) -> CallbackOrigin {
    CallbackOrigin { query_id: "q1".to_string(), inline_message_id: inline.map(|s| s.to_string()), message }
}

#[test]
fn start_in_private_chat_sends_welcome() {
    let raw = RawEvent::Message(RawMessage {
        from: Some(RawUser { id: 9, username: None, is_bot: false, language_code: None }),
        chat: RawChat { id: 9, kind: RawChatKind::Private, title: None },
        text: Some("/start".to_string()),
    });
    let (_, chat, event) = normalize(&raw).unwrap();
    assert_eq!(event, TriggerEvent::Command("start".to_string(), vec![]));
    let action = route_message(PluginResponse::Text("Welcome".to_string()), chat.id);
    assert_eq!(action, MessageAction::SendMessage { chat_id: 9, text: "Welcome".to_string() });
}

#[test]
fn inline_query_returns_one_article() {
    let raw = RawEvent::InlineQuery {
        from: RawUser { id: 3, username: None, is_bot: false, language_code: None },
        query: "foo".to_string(),
    };
    let (_, _, event) = normalize(&raw).unwrap();
    assert_eq!(event, TriggerEvent::InlineQuery("foo".to_string()));
    let resp = PluginResponse::Inline(InlineResponse {
        results_json: r#"[{"id":"1","title":"T","message":"M"}]"#.to_string(),
        switch_pm: None,
        cache_time: None,
    });
    let answer = route_inline(resp, Some(vec![item("1", None, None)]));
    assert_eq!(answer.results.len(), 1);
    assert_eq!(answer.results[0].id, "1");
    assert_eq!(answer.results[0].title, "T");
    assert_eq!(answer.results[0].message, "M");
    assert_eq!(answer.results[0].button, None);
}

#[test]
fn undecodable_results_give_an_empty_answer() {
    let resp = PluginResponse::Inline(InlineResponse {
        results_json: "not json".to_string(),
        switch_pm: Some(SwitchPm { text: "Go".to_string(), start_parameter: "s".to_string() }),
        cache_time: Some(30),
    });
    let answer = route_inline(resp, None);
    assert!(answer.results.is_empty());
    assert_eq!(answer.cache_time, Some(30));
    assert_eq!(answer.button.unwrap().start_parameter, "s");
    assert!(results_from_items(None).is_empty());
}

#[test]
fn non_inline_response_to_inline_query_is_an_empty_answer() {
    let answer = route_inline(PluginResponse::Text("x".to_string()), Some(vec![item("1", None, None)]));
    assert!(answer.results.is_empty());
    assert_eq!(answer.button, None);
    assert_eq!(answer.cache_time, None);
}

#[test]
fn button_needs_text_and_data() {
    let r = make_result(&item("a", Some("Vote"), Some("vote:yes")));
    assert_eq!(r.button, Some(InlineButton { text: "Vote".to_string(), data: "vote:yes".to_string() }));
    assert_eq!(make_result(&item("a", Some("Vote"), None)).button, None);
    assert_eq!(make_result(&item("a", None, Some("d"))).button, None);
    let all = results_from_items(Some(vec![item("1", None, None), item("2", Some("b"), Some("c"))]));
    assert_eq!(all.len(), 2);
    assert_eq!(all[1].id, "2");
}

#[test]
fn callback_edit_prefers_the_inline_message() {
    let raw = RawEvent::CallbackQuery {
        from: RawUser { id: 3, username: None, is_bot: false, language_code: None },
        data: Some("vote:yes".to_string()),
    };
    let (_, _, event) = normalize(&raw).unwrap();
    assert_eq!(event, TriggerEvent::CallbackQuery("vote:yes".to_string()));
    let target = MessageRef { chat_id: 5, message_id: 6 };
    let action = route_callback(PluginResponse::EditInline("Thanks!".to_string()), origin(Some("im1"), Some(target)));
    assert_eq!(
        action,
        CallbackAction::EditInlineMessage {
            query_id: "q1".to_string(),
            inline_message_id: "im1".to_string(),
            text: "Thanks!".to_string()
        }
    );
}

#[test]
fn callback_edit_without_inline_id_edits_the_chat_message() {
    let target = MessageRef { chat_id: 5, message_id: 6 };
    let action = route_callback(PluginResponse::EditInline("x".to_string()), origin(None, Some(target)));
    assert_eq!(action, CallbackAction::EditChatMessage { query_id: "q1".to_string(), target, text: "x".to_string() });
    let action = route_callback(PluginResponse::EditInline("x".to_string()), origin(None, None));
    assert_eq!(action, CallbackAction::Acknowledge { query_id: "q1".to_string() });
}

#[test]
fn callback_text_is_an_alert_and_noop_is_an_acknowledgement() {
    let action = route_callback(PluginResponse::Text("Hi".to_string()), origin(None, None));
    assert_eq!(action, CallbackAction::ShowAlert { query_id: "q1".to_string(), text: "Hi".to_string() });
    let action = route_callback(PluginResponse::Noop, origin(Some("im"), None));
    assert_eq!(action, CallbackAction::Acknowledge { query_id: "q1".to_string() });
}

#[test]
fn rejected_alert_falls_back_to_a_chat_message() {
    let target = Some(MessageRef { chat_id: 77, message_id: 1 });
    let action = route_callback(PluginResponse::Text("Voted".to_string()), origin(None, target));
    let text = match action {
        CallbackAction::ShowAlert { text, .. } => text,
        other => panic!("unexpected {:?}", other),
    };
    assert_eq!(
        alert_fallback(false, text.clone(), target, 3),
        MessageAction::SendMessage { chat_id: 77, text: "Voted".to_string() }
    );
    assert_eq!(alert_fallback(true, text.clone(), target, 3), MessageAction::Nothing);
}

#[test]
fn rejected_alert_without_message_goes_to_the_sender() {
    assert_eq!(
        alert_fallback(false, "Voted".to_string(), None, 3),
        MessageAction::SendMessage { chat_id: 3, text: "Voted".to_string() }
    );
    assert_eq!(alert_fallback(true, "Voted".to_string(), None, 3), MessageAction::Nothing);
}

#[test]
fn message_routing_ignores_non_text() {
    assert_eq!(route_message(PluginResponse::Noop, 1), MessageAction::Nothing);
    assert_eq!(route_message(PluginResponse::EditInline("e".to_string()), 1), MessageAction::Nothing);
}

#[test]
fn chosen_result_edit() {
    assert_eq!(
        route_chosen(PluginResponse::EditInline("done".to_string()), Some("im".to_string())),
        ChosenAction::EditInlineMessage { inline_message_id: "im".to_string(), text: "done".to_string() }
    );
    assert_eq!(route_chosen(PluginResponse::EditInline("done".to_string()), None), ChosenAction::Nothing);
    assert_eq!(route_chosen(PluginResponse::Text("t".to_string()), Some("im".to_string())), ChosenAction::Nothing);
}
