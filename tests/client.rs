use openai_client::chat::{OpenAIChatMessage, OpenAIChatOptions, OpenAIChatRole};
use openai_client::client::{
    finish_reply, ClientError, HttpMethod, OpenAIClient, RequestBody, TransportError,
};
use openai_client::completions::CompletionOptions;
use openai_client::edits::EditOptions;
use openai_client::embeddings::CreateEmbeddingsOptions;
use openai_client::images::{
    CreateImgOptions, CreateImgVariationsOptions, EditImgOptions, Img, ImgData, ImgType,
};
use openai_client::wire::ValidationError;

const BASE: &str = "https://api.openai.com/v1";

fn client() -> OpenAIClient {
    OpenAIClient::new("test-key", BASE)
}

#[test]
fn client_keeps_credentials() {
    let c = client();
    assert_eq!(c.api_key(), "test-key");
    assert_eq!(c.base_uri(), BASE);
}

#[test]
fn models_requests() {
    let c = client();
    let q = c.get_models_request();
    assert_eq!(q.method, HttpMethod::Get);
    assert_eq!(q.url, "https://api.openai.com/v1/models");
    assert_eq!(q.authorization, "Bearer test-key");
    assert!(matches!(q.body, RequestBody::Empty));
    let q = c.get_model_request("text-davinci-003");
    assert_eq!(q.url, "https://api.openai.com/v1/models/text-davinci-003");
    assert_eq!(q.method, HttpMethod::Get);
}

#[test]
fn chat_request_is_posted_as_json() {
    let msg = OpenAIChatMessage {
        role: OpenAIChatRole::System,
        name: None,
        content: "you are a helpful assistant".to_owned(),
        function_call: None,
    };
    let opts = OpenAIChatOptions::default("gpt-3.5-turbo", vec![msg], 20);
    let q = client().get_chat_completion_request(opts).unwrap();
    assert_eq!(q.method, HttpMethod::Post);
    assert_eq!(q.url, "https://api.openai.com/v1/chat/completions");
    assert_eq!(q.authorization, "Bearer test-key");
    assert!(matches!(q.body, RequestBody::Json(ref b) if b.len() == 9));
}

#[test]
fn invalid_options_never_become_requests() {
    let mut opts = OpenAIChatOptions::default("gpt-3.5-turbo", vec![], 20);
    opts.stop = Some(vec!["a".into(), "b".into(), "c".into(), "d".into(), "e".into()]);
    assert_eq!(
        client().get_chat_completion_request(opts).unwrap_err(),
        ValidationError::EmptyMessages
    );
    let mut opts = CompletionOptions::default("text-davinci-003", vec!["x".into()]);
    opts.stop = Some(vec!["a".into(), "b".into(), "c".into(), "d".into(), "e".into()]);
    assert_eq!(
        client().get_completion_request(opts).unwrap_err(),
        ValidationError::TooManyStopSequences
    );
}

#[test]
fn endpoint_paths() {
    let c = client();
    let q = c
        .get_completion_request(CompletionOptions::default("text-davinci-003", vec!["x".into()]))
        .unwrap();
    assert_eq!(q.url, "https://api.openai.com/v1/completions");
    let q = c
        .create_embeddings_request(CreateEmbeddingsOptions::default("ada", vec!["x".into()]))
        .unwrap();
    assert_eq!(q.url, "https://api.openai.com/v1/embeddings");
    let edit = EditOptions {
        model: "m".into(),
        input: None,
        instruction: "i".into(),
        n: None,
        temperature: None,
        top_p: None,
    };
    let q = c.create_edit_request(edit).unwrap();
    assert_eq!(q.url, "https://api.openai.com/v1/embeddings");
    let q = c.create_image_request(CreateImgOptions::default("a house")).unwrap();
    assert_eq!(q.url, "https://api.openai.com/v1/images/generations");
    assert!(matches!(q.body, RequestBody::Json(_)));
    let q = c
        .edit_img_request(EditImgOptions::default("toad.png", vec![1], ImgType::Png, "blue"))
        .unwrap();
    assert_eq!(q.url, "https://api.openai.com/v1/images/edits");
    assert!(matches!(q.body, RequestBody::Multipart(ref p) if p.len() == 5));
    let q = c
        .create_img_variations_request(CreateImgVariationsOptions::default(
            "toad.png",
            vec![1],
            ImgType::Png,
        ))
        .unwrap();
    assert_eq!(q.url, "https://api.openai.com/v1/images/variations");
    assert!(matches!(q.body, RequestBody::Multipart(ref p) if p.len() == 4));
    assert_eq!(
        c.create_img_variations_request(CreateImgVariationsOptions::default(
            "toad.png",
            vec![],
            ImgType::Png,
        ))
        .unwrap_err(),
        ValidationError::EmptyImage
    );
}

#[test]
fn non_success_status_is_transport_error() {
    let r: Result<u32, ClientError> = finish_reply(404, Ok(7));
    assert_eq!(r, Err(ClientError::Transport(TransportError::Status(404))));
    let r: Result<u32, ClientError> = finish_reply(500, Err("not json".to_owned()));
    assert_eq!(r, Err(ClientError::Transport(TransportError::Status(500))));
    let r: Result<u32, ClientError> = finish_reply(199, Ok(1));
    assert_eq!(r, Err(ClientError::Transport(TransportError::Status(199))));
}

#[test]
fn success_status_decodes() {
    let r: Result<u32, ClientError> = finish_reply(200, Ok(7));
    assert_eq!(r, Ok(7));
    let r: Result<u32, ClientError> = finish_reply(299, Err("missing field `id`".to_owned()));
    assert_eq!(r, Err(ClientError::Decode("missing field `id`".to_owned())));
}

#[test]
fn image_entry_takes_either_form() {
    let img = Img::from_reply(Some("https://x/y.png".to_owned()), None).unwrap();
    assert_eq!(img.img_data, ImgData::Url("https://x/y.png".to_owned()));
    let img = Img::from_reply(None, Some("iVBORw0KGgo=".to_owned())).unwrap();
    assert_eq!(img.img_data, ImgData::Base64("iVBORw0KGgo=".to_owned()));
    assert!(matches!(Img::from_reply(None, None), Err(ClientError::Decode(_))));
    assert!(matches!(
        Img::from_reply(Some("u".to_owned()), Some("b".to_owned())),
        Err(ClientError::Decode(_))
    ));
}
