use rpc_transport::error::InvalidParams;
use rpc_transport::json::Json;
use rpc_transport::params::{normalize, params_from_document, refuse, ParamList};
use rpc_transport::payload::RawJson;

fn raw(text: &str) -> RawJson {
    RawJson::from_string(text.to_string())
}

fn num(text: &str) -> Json {
    Json::Number(text.to_string())
}

fn refusal_of(text: &str) -> InvalidParams {
    InvalidParams {
        message: format!("RPC Params are expected to be an array but got {}", text),
    }
}

#[test]
fn absent_params_give_the_empty_list() {
    assert_eq!(normalize(None), Ok(ParamList { items: vec![] }));
}

#[test]
fn empty_list_is_empty() {
    let list = ParamList::new();
    assert_eq!(list.len(), 0);
    assert_eq!(list.items, Vec::<Json>::new());
}

#[test]
fn array_params_pass_unchanged() {
    assert_eq!(
        normalize(Some(raw("[1,2]"))),
        Ok(ParamList { items: vec![num("1"), num("2")] })
    );
}

#[test]
fn array_params_keep_order_and_values() {
    let got = normalize(Some(raw("[\"b\", \"a\", {\"k\": [null, false]}, 3.5, [\"a\"]]")));
    let want = ParamList {
        items: vec![
            Json::String("b".to_string()),
            Json::String("a".to_string()),
            Json::Object(vec![(
                "k".to_string(),
                Json::Array(vec![Json::Null, Json::Bool(false)]),
            )]),
            num("3.5"),
            Json::Array(vec![Json::String("a".to_string())]),
        ],
    };
    assert_eq!(got, Ok(want));
}

#[test]
fn empty_array_gives_the_empty_list() {
    assert_eq!(normalize(Some(raw("[]"))), Ok(ParamList { items: vec![] }));
    assert_eq!(normalize(Some(raw(" [ ] "))), Ok(ParamList { items: vec![] }));
}

#[test]
fn list_length_counts_the_elements() {
    let list = normalize(Some(raw("[1, [2, 3], 4]"))).unwrap();
    assert_eq!(list.len(), 3);
}

#[test]
fn object_params_are_refused() {
    assert_eq!(normalize(Some(raw("{\"a\":1}"))), Err(refusal_of("{\"a\":1}")));
}

#[test]
fn string_params_are_refused() {
    assert_eq!(normalize(Some(raw("\"abc\""))), Err(refusal_of("\"abc\"")));
}

#[test]
fn number_params_are_refused() {
    assert_eq!(normalize(Some(raw("17"))), Err(refusal_of("17")));
    assert_eq!(normalize(Some(raw("-1.5"))), Err(refusal_of("-1.5")));
}

#[test]
fn boolean_params_are_refused() {
    assert_eq!(normalize(Some(raw("true"))), Err(refusal_of("true")));
    assert_eq!(normalize(Some(raw("false"))), Err(refusal_of("false")));
}

#[test]
fn null_params_are_refused() {
    assert_eq!(normalize(Some(raw("null"))), Err(refusal_of("null")));
}

#[test]
fn text_that_is_no_document_is_refused() {
    assert_eq!(normalize(Some(raw("[1, 2"))), Err(refusal_of("[1, 2")));
    assert_eq!(normalize(Some(raw(""))), Err(refusal_of("")));
}

#[test]
fn refusal_message_names_the_payload() {
    let refusal = normalize(Some(raw("{\"x\": [1]}"))).unwrap_err();
    assert_eq!(
        refusal.message(),
        "RPC Params are expected to be an array but got {\"x\": [1]}"
    );
    assert_eq!(refusal.message, refusal.message().to_string());
}

#[test]
fn refuse_quotes_the_text_as_given() {
    assert_eq!(
        refuse(&raw(" 5 ")).message,
        "RPC Params are expected to be an array but got  5 ".to_string()
    );
}

#[test]
fn document_array_becomes_the_list() {
    let doc = Some(Json::Array(vec![Json::Bool(true), num("2")]));
    assert_eq!(
        params_from_document(doc, &raw("ignored")),
        Ok(ParamList { items: vec![Json::Bool(true), num("2")] })
    );
}

#[test]
fn document_of_any_other_kind_is_refused() {
    let others = vec![
        Json::Null,
        Json::Bool(false),
        num("1"),
        Json::String("s".to_string()),
        Json::Object(vec![]),
    ];
    for doc in others {
        assert_eq!(params_from_document(Some(doc), &raw("T")), Err(refusal_of("T")));
    }
    assert_eq!(params_from_document(None, &raw("T")), Err(refusal_of("T")));
}

#[test]
fn normalize_gives_the_same_answer_each_time() {
    assert_eq!(normalize(Some(raw("[1, {\"a\": 2}]"))), normalize(Some(raw("[1, {\"a\": 2}]"))));
    assert_eq!(normalize(Some(raw("7"))), normalize(Some(raw("7"))));
}
