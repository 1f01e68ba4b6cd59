use openai_client::chat::{OpenAIChatMessage, OpenAIChatOptions, OpenAIChatRole};
use openai_client::completions::CompletionOptions;
use openai_client::edits::EditOptions;
use openai_client::embeddings::CreateEmbeddingsOptions;
use openai_client::images::{
    decimal_string, CreateImgOptions, CreateImgVariationsOptions, EditImgOptions, ImgFormat,
    ImgSize, ImgType, PartBody,
};
use openai_client::wire::{BodyField, Decimal, FieldValue, ValidationError};

fn names(body: &[BodyField]) -> Vec<&'static str> {
    body.iter().map(|f| f.name).collect()
}

fn system_message(text: &str) -> OpenAIChatMessage {
    OpenAIChatMessage {
        role: OpenAIChatRole::System,
        name: None,
        content: text.to_owned(),
        function_call: None,
    }
}

fn stops(k: usize) -> Vec<String> {
    (0..k).map(|i| format!("stop{i}")).collect()
}

#[test]
fn chat_default_body_has_documented_defaults() {
    let opts = OpenAIChatOptions::default(
        "gpt-3.5-turbo",
        vec![system_message("you are a helpful assistant")],
        20,
    );
    let body = opts.into_body();
    let find = |key: &str| body.iter().find(|f| f.name == key).map(|f| &f.value);
    assert!(matches!(find("model"), Some(FieldValue::Text(m)) if m == "gpt-3.5-turbo"));
    assert!(matches!(find("temperature"), Some(FieldValue::Fraction(d)) if d.thousandths == 1000));
    assert!(matches!(find("top_p"), Some(FieldValue::Fraction(d)) if d.thousandths == 1000));
    assert!(matches!(find("n"), Some(FieldValue::Unsigned(1))));
    assert!(matches!(find("stream"), Some(FieldValue::Flag(false))));
    assert!(matches!(find("max_tokens"), Some(FieldValue::Unsigned(20))));
    assert!(matches!(find("presence_penalty"), Some(FieldValue::Signed(0))));
    match find("messages") {
        Some(FieldValue::Messages(ms)) => {
            assert_eq!(ms.len(), 1);
            assert_eq!(ms[0].content, "you are a helpful assistant");
            assert_eq!(ms[0].role, OpenAIChatRole::System);
        }
        other => panic!("unexpected messages entry: {other:?}"),
    }
    assert!(find("stop").is_none());
    assert!(find("functions").is_none());
    assert!(find("logit_bias").is_none());
    assert!(find("user").is_none());
    assert!(find("function_call").is_none());
}

#[test]
fn chat_default_body_keys_in_order() {
    let opts = OpenAIChatOptions::default("gpt-3.5-turbo", vec![system_message("hi")], 20);
    assert_eq!(
        names(&opts.into_body()),
        vec![
            "model",
            "messages",
            "temperature",
            "top_p",
            "n",
            "stream",
            "max_tokens",
            "presence_penalty",
            "frequency_penalty"
        ]
    );
}

#[test]
fn chat_body_includes_set_options() {
    let mut opts = OpenAIChatOptions::default("gpt-4", vec![system_message("hi")], 5);
    opts.stop = Some(stops(2));
    opts.user = Some("u1".to_owned());
    opts.logit_bias = Some(vec![("50256".to_owned(), -100)]);
    opts.temperature = Some(Decimal::from_thousandths(250));
    let body = opts.into_body();
    let keys = names(&body);
    assert!(keys.contains(&"stop"));
    assert!(keys.contains(&"user"));
    assert!(keys.contains(&"logit_bias"));
    let temp = body.iter().find(|f| f.name == "temperature").unwrap();
    assert!(matches!(temp.value, FieldValue::Fraction(Decimal { thousandths: 250 })));
    let stop = body.iter().find(|f| f.name == "stop").unwrap();
    assert!(matches!(&stop.value, FieldValue::Texts(v) if v.len() == 2));
}

#[test]
fn message_body_omits_unset_name() {
    let body = system_message("hello").into_body();
    assert_eq!(names(&body), vec!["role", "content"]);
    let named = OpenAIChatMessage {
        role: OpenAIChatRole::User,
        content: "hello".to_owned(),
        name: Some("ann".to_owned()),
        function_call: Some(serde_json::Value::String("auto".to_owned())),
    };
    assert_eq!(names(&named.into_body()), vec!["role", "content", "name", "function_call"]);
}

#[test]
fn chat_stop_limit() {
    let mut opts = OpenAIChatOptions::default("gpt-4", vec![system_message("hi")], 5);
    opts.stop = Some(stops(4));
    assert_eq!(opts.validate(), Ok(()));
    opts.stop = Some(stops(5));
    assert_eq!(opts.validate(), Err(ValidationError::TooManyStopSequences));
}

#[test]
fn chat_required_fields() {
    let opts = OpenAIChatOptions::default("gpt-4", vec![], 5);
    assert_eq!(opts.validate(), Err(ValidationError::EmptyMessages));
    let opts = OpenAIChatOptions::default("", vec![system_message("hi")], 5);
    assert_eq!(opts.validate(), Err(ValidationError::EmptyModel));
}

#[test]
fn completion_default_body_keys() {
    let opts = CompletionOptions::default(
        "text-davinci-003",
        vec!["Wish me luck on my date with Jenny".to_string()],
    );
    assert_eq!(opts.validate(), Ok(()));
    let body = opts.into_body();
    assert_eq!(
        names(&body),
        vec![
            "model",
            "prompt",
            "max_tokens",
            "temperature",
            "top_p",
            "n",
            "stream",
            "echo",
            "presence_penalty",
            "frequency_penalty",
            "best_of"
        ]
    );
    assert!(matches!(body[2].value, FieldValue::Unsigned(16)));
    assert!(matches!(body[7].value, FieldValue::Flag(false)));
    assert!(matches!(body[10].value, FieldValue::Unsigned(1)));
}

#[test]
fn completion_stop_limit_and_prompt() {
    let mut opts = CompletionOptions::default("text-davinci-003", vec!["x".to_string()]);
    opts.stop = Some(stops(7));
    assert_eq!(opts.validate(), Err(ValidationError::TooManyStopSequences));
    let opts = CompletionOptions::default("text-davinci-003", vec![]);
    assert_eq!(opts.validate(), Err(ValidationError::EmptyPrompt));
}

#[test]
fn edit_options_body_and_validation() {
    let opts = EditOptions {
        model: "text-davinci-edit-001".to_owned(),
        input: None,
        instruction: "Fix the spelling".to_owned(),
        n: None,
        temperature: None,
        top_p: None,
    };
    assert_eq!(opts.validate(), Ok(()));
    assert_eq!(names(&opts.into_body()), vec!["model", "instruction"]);
    let opts = EditOptions {
        model: "text-davinci-edit-001".to_owned(),
        input: Some("teh cat".to_owned()),
        instruction: String::new(),
        n: Some(2),
        temperature: None,
        top_p: Some(Decimal::one()),
    };
    assert_eq!(opts.validate(), Err(ValidationError::EmptyInstruction));
    assert_eq!(names(&opts.into_body()), vec!["model", "input", "instruction", "n", "top_p"]);
}

#[test]
fn embeddings_default_body() {
    let opts = CreateEmbeddingsOptions::default(
        "text-embedding-ada-002",
        vec!["I love jenny!".to_owned(), "I cant wait to move to LA!".to_owned()],
    );
    assert!(opts.user.is_none());
    assert_eq!(opts.validate(), Ok(()));
    let body = opts.into_body();
    assert_eq!(names(&body), vec!["model", "input"]);
    assert!(matches!(&body[1].value, FieldValue::Texts(v) if v.len() == 2 && v[0] == "I love jenny!"));
    let empty = CreateEmbeddingsOptions::default("text-embedding-ada-002", vec![]);
    assert_eq!(empty.validate(), Err(ValidationError::EmptyInput));
}

#[test]
fn create_img_default_body() {
    let opts = CreateImgOptions::default("A pretty house");
    assert_eq!(opts.validate(), Ok(()));
    let body = opts.into_body();
    assert_eq!(names(&body), vec!["prompt", "n", "size", "response_format"]);
    assert!(matches!(body[2].value, FieldValue::Size(ImgSize::Size256x256)));
    assert!(matches!(body[3].value, FieldValue::Format(ImgFormat::Url)));
    assert_eq!(CreateImgOptions::default("").validate(), Err(ValidationError::EmptyPrompt));
}

#[test]
fn wire_strings() {
    assert_eq!(ImgSize::Size256x256.to_string(), "256x256");
    assert_eq!(ImgSize::Size512x512.to_string(), "512x512");
    assert_eq!(ImgSize::Size1024x1024.to_string(), "1024x1024");
    assert_eq!(ImgFormat::Url.to_string(), "url");
    assert_eq!(ImgFormat::Base64Json.to_string(), "b64_json");
    assert_eq!(ImgType::Png.to_string(), "image/png");
    assert_eq!(OpenAIChatRole::System.to_string(), "system");
    assert_eq!(OpenAIChatRole::Function.to_string(), "function");
}

#[test]
fn decimal_rendering() {
    assert_eq!(decimal_string(0), "0");
    assert_eq!(decimal_string(7), "7");
    assert_eq!(decimal_string(10), "10");
    assert_eq!(decimal_string(42), "42");
    assert_eq!(decimal_string(100), "100");
    assert_eq!(decimal_string(255), "255");
}

fn part_text(p: &PartBody) -> Option<&str> {
    match p {
        PartBody::Text(s) => Some(s.as_str()),
        PartBody::Bytes(_) => None,
    }
}

#[test]
fn edit_img_parts_with_mask() {
    let img = vec![0x89, b'P', b'N', b'G', 1, 2, 3];
    let mut opts =
        EditImgOptions::default("toad.png", img.clone(), ImgType::Png, "Please change the background to dark blue");
    opts.mask = Some(vec![9, 9]);
    opts.user = Some("me".to_owned());
    assert_eq!(opts.validate(), Ok(()));
    let parts = opts.into_parts();
    let keys: Vec<&str> = parts.iter().map(|p| p.name).collect();
    assert_eq!(keys, vec!["image", "mask", "prompt", "n", "size", "response_format", "user"]);
    assert_eq!(keys.iter().filter(|k| **k == "image").count(), 1);
    assert_eq!(keys.iter().filter(|k| **k == "mask").count(), 1);
    assert!(matches!(&parts[0].body, PartBody::Bytes(b) if *b == img));
    assert_eq!(parts[0].file_name.as_deref(), Some("toad.png"));
    assert_eq!(parts[0].mime, Some(ImgType::Png));
    assert!(matches!(&parts[1].body, PartBody::Bytes(b) if *b == vec![9, 9]));
    assert!(parts[1].file_name.is_none());
    assert_eq!(part_text(&parts[2].body), Some("Please change the background to dark blue"));
    assert_eq!(part_text(&parts[3].body), Some("1"));
    assert_eq!(part_text(&parts[4].body), Some("256x256"));
    assert_eq!(part_text(&parts[5].body), Some("url"));
    assert_eq!(part_text(&parts[6].body), Some("me"));
}

#[test]
fn edit_img_parts_without_mask() {
    let mut opts = EditImgOptions::default("toad.png", vec![1], ImgType::Png, "p");
    opts.n = Some(12);
    opts.size = Some(ImgSize::Size1024x1024);
    opts.response_format = None;
    let parts = opts.into_parts();
    let keys: Vec<&str> = parts.iter().map(|p| p.name).collect();
    assert_eq!(keys, vec!["image", "prompt", "n", "size"]);
    assert_eq!(part_text(&parts[2].body), Some("12"));
    assert_eq!(part_text(&parts[3].body), Some("1024x1024"));
}

#[test]
fn edit_img_validation() {
    let opts = EditImgOptions::default("toad.png", vec![], ImgType::Png, "p");
    assert_eq!(opts.validate(), Err(ValidationError::EmptyImage));
    let opts = EditImgOptions::default("toad.png", vec![1], ImgType::Png, "");
    assert_eq!(opts.validate(), Err(ValidationError::EmptyPrompt));
}

#[test]
fn variation_parts_default() {
    let opts = CreateImgVariationsOptions::default("toad.png", vec![5, 6], ImgType::Png);
    assert_eq!(opts.validate(), Ok(()));
    let parts = opts.into_parts();
    let keys: Vec<&str> = parts.iter().map(|p| p.name).collect();
    assert_eq!(keys, vec!["image", "n", "size", "response_format"]);
    assert!(matches!(&parts[0].body, PartBody::Bytes(b) if *b == vec![5, 6]));
    assert_eq!(part_text(&parts[2].body), Some("256x256"));
    let empty = CreateImgVariationsOptions::default("toad.png", vec![], ImgType::Png);
    assert_eq!(empty.validate(), Err(ValidationError::EmptyImage));
}
