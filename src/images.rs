use vstd::prelude::*;

use crate::client::ClientError;
use crate::wire::{
    check_text, field, field_names, first_error, opt_field, push_field, push_opt_field, text_check, BodyField,
    FieldValue, ValidationError,
};

verus! {

/// The image sizes the API can produce.
#[derive(Debug, Clone, Copy, PartialEq, Eq, Structural)]
pub enum ImgSize {
    Size256x256,
    Size512x512,
    Size1024x1024,
}

impl ImgSize {
    pub open spec fn text(self) -> Seq<char> {
        match self {
            ImgSize::Size256x256 => "256x256"@,
            ImgSize::Size512x512 => "512x512"@,
            ImgSize::Size1024x1024 => "1024x1024"@,
        }
    }

    /// The wire form of the size, such as `256x256`.
    pub fn to_string(&self) -> (r: String)
        ensures
            r@ == self.text(),
    {
        match self {
            ImgSize::Size256x256 => String::from_str("256x256"),
            ImgSize::Size512x512 => String::from_str("512x512"),
            ImgSize::Size1024x1024 => String::from_str("1024x1024"),
        }
    }
}

/// How generated images are returned: as a URL or inline as base64.
#[derive(Debug, Clone, Copy, PartialEq, Eq, Structural)]
pub enum ImgFormat {
    Url,
    Base64Json,
}

impl ImgFormat {
    pub open spec fn text(self) -> Seq<char> {
        match self {
            ImgFormat::Url => "url"@,
            ImgFormat::Base64Json => "b64_json"@,
        }
    }

    /// The wire form of the format: `url` or `b64_json`.
    pub fn to_string(&self) -> (r: String)
        ensures
            r@ == self.text(),
    {
        match self {
            ImgFormat::Url => String::from_str("url"),
            ImgFormat::Base64Json => String::from_str("b64_json"),
        }
    }
}

/// The image encodings the API accepts for uploads; only PNG at present.
#[derive(Debug, Clone, Copy, PartialEq, Eq, Structural)]
pub enum ImgType {
    Png,
}

impl ImgType {
    pub open spec fn text(self) -> Seq<char> {
        match self {
            ImgType::Png => "image/png"@,
        }
    }

    /// The MIME type of the encoding.
    pub fn to_string(&self) -> (r: String)
        ensures
            r@ == self.text(),
    {
        match self {
            ImgType::Png => String::from_str("image/png"),
        }
    }
}

/// Options for generating images from a text prompt.
#[derive(Debug)]
pub struct CreateImgOptions {
    pub prompt: String,
    pub n: Option<u8>,
    pub size: Option<ImgSize>,
    pub response_format: Option<ImgFormat>,
    pub user: Option<String>,
}

/// Options for editing an uploaded image, optionally restricted by a mask.
#[derive(Debug)]
pub struct EditImgOptions {
    pub file_name: String,
    pub img: Vec<u8>,
    pub prompt: String,
    pub mask: Option<Vec<u8>>,
    pub n: Option<u8>,
    pub size: Option<ImgSize>,
    pub response_format: Option<ImgFormat>,
    pub user: Option<String>,
    pub img_type: ImgType,
}

/// Options for producing variations of an uploaded image.
#[derive(Debug)]
pub struct CreateImgVariationsOptions {
    pub file_name: String,
    pub img: Vec<u8>,
    pub n: Option<u8>,
    pub size: Option<ImgSize>,
    pub response_format: Option<ImgFormat>,
    pub user: Option<String>,
    pub img_type: ImgType,
}

/// What one part of a multipart body carries.
#[derive(Debug)]
pub enum PartBody {
    Bytes(Vec<u8>),
    Text(String),
}

/// One named part of a multipart body. Only uploaded files carry a file
/// name and a MIME type.
#[derive(Debug)]
pub struct FormPart {
    pub name: &'static str,
    pub body: PartBody,
    pub file_name: Option<String>,
    pub mime: Option<ImgType>,
}

/// The content of a part, as bytes or as characters.
pub enum PartContent {
    Bytes(Seq<u8>),
    Text(Seq<char>),
}

pub struct PartView {
    pub name: Seq<char>,
    pub content: PartContent,
    pub file_name: Option<Seq<char>>,
    pub mime: Option<ImgType>,
}

impl PartBody {
    pub open spec fn view(self) -> PartContent {
        match self {
            PartBody::Bytes(b) => PartContent::Bytes(b@),
            PartBody::Text(s) => PartContent::Text(s@),
        }
    }
}

impl FormPart {
    pub open spec fn view(self) -> PartView {
        PartView {
            name: self.name@,
            content: self.body.view(),
            file_name: match self.file_name {
                Some(f) => Some(f@),
                None => None,
            },
            mime: self.mime,
        }
    }
}

pub open spec fn parts_view(parts: Seq<FormPart>) -> Seq<PartView> {
    parts.map_values(|p: FormPart| p.view())
}

pub open spec fn text_part(name: Seq<char>, text: Seq<char>) -> PartView {
    PartView { name, content: PartContent::Text(text), file_name: None, mime: None }
}

pub open spec fn bytes_part(name: Seq<char>, bytes: Seq<u8>) -> PartView {
    PartView { name, content: PartContent::Bytes(bytes), file_name: None, mime: None }
}

pub open spec fn file_part(name: Seq<char>, bytes: Seq<u8>, file_name: Seq<char>, mime: ImgType) -> PartView {
    PartView {
        name,
        content: PartContent::Bytes(bytes),
        file_name: Some(file_name),
        mime: Some(mime),
    }
}

/// The decimal digits of `n`, most significant first.
pub open spec fn decimal_text(n: nat) -> Seq<char>
    decreases n,
{
    if n < 10 {
        digit_text(n)
    } else {
        decimal_text(n / 10) + digit_text(n % 10)
    }
}

pub open spec fn digit_text(d: nat) -> Seq<char> {
    if d == 0 {
        "0"@
    } else if d == 1 {
        "1"@
    } else if d == 2 {
        "2"@
    } else if d == 3 {
        "3"@
    } else if d == 4 {
        "4"@
    } else if d == 5 {
        "5"@
    } else if d == 6 {
        "6"@
    } else if d == 7 {
        "7"@
    } else if d == 8 {
        "8"@
    } else {
        "9"@
    }
}

/// The scalar parts shared by image edits and variations, each present only
/// when its option is set: `n` in decimal, `size`, `response_format`, `user`.
pub open spec fn scalar_parts(
    n: Option<u8>,
    size: Option<ImgSize>,
    response_format: Option<ImgFormat>,
    user: Option<String>,
) -> Seq<PartView> {
    (match n {
        Some(k) => seq![text_part("n"@, decimal_text(k as nat))],
        None => seq![],
    }) + (match size {
        Some(s) => seq![text_part("size"@, s.text())],
        None => seq![],
    }) + (match response_format {
        Some(f) => seq![text_part("response_format"@, f.text())],
        None => seq![],
    }) + (match user {
        Some(u) => seq![text_part("user"@, u@)],
        None => seq![],
    })
}

/// The multipart body of an image edit: the image file, the mask when
/// given, the prompt, then the scalar parts.
pub open spec fn edit_parts(o: EditImgOptions) -> Seq<PartView> {
    seq![file_part("image"@, o.img@, o.file_name@, o.img_type)] + (match o.mask {
        Some(m) => seq![bytes_part("mask"@, m@)],
        None => seq![],
    }) + seq![text_part("prompt"@, o.prompt@)] + scalar_parts(
        o.n,
        o.size,
        o.response_format,
        o.user,
    )
}

/// The multipart body of an image variation: the image file, then the
/// scalar parts.
pub open spec fn variation_parts(o: CreateImgVariationsOptions) -> Seq<PartView> {
    seq![file_part("image"@, o.img@, o.file_name@, o.img_type)] + scalar_parts(
        o.n,
        o.size,
        o.response_format,
        o.user,
    )
}

fn digit_str(d: u8) -> (r: &'static str)
    requires
        d < 10,
    ensures
        r@ == digit_text(d as nat),
{
    if d == 0 {
        "0"
    } else if d == 1 {
        "1"
    } else if d == 2 {
        "2"
    } else if d == 3 {
        "3"
    } else if d == 4 {
        "4"
    } else if d == 5 {
        "5"
    } else if d == 6 {
        "6"
    } else if d == 7 {
        "7"
    } else if d == 8 {
        "8"
    } else {
        "9"
    }
}

/// Renders `n` in decimal.
pub fn decimal_string(n: u8) -> (r: String)
    ensures
        r@ == decimal_text(n as nat),
{
    proof {
        reveal_with_fuel(decimal_text, 3);
    }
    if n < 10 {
        String::from_str(digit_str(n))
    } else if n < 100 {
        String::from_str(digit_str(n / 10)).concat(digit_str(n % 10))
    } else {
        assert(n as nat / 10 / 10 == n as nat / 100);
        String::from_str(digit_str(n / 100)).concat(digit_str((n / 10) % 10)).concat(
            digit_str(n % 10),
        )
    }
}

fn push_scalar_parts(
    parts: &mut Vec<FormPart>,
    n: Option<u8>,
    size: Option<ImgSize>,
    response_format: Option<ImgFormat>,
    user: Option<String>,
)
    ensures
        parts_view(final(parts)@) =~= parts_view(old(parts)@) + scalar_parts(
            n,
            size,
            response_format,
            user,
        ),
{
    let ghost start = parts@;
    if let Some(k) = n {
        parts.push(
            FormPart { name: "n", body: PartBody::Text(decimal_string(k)), file_name: None, mime: None },
        );
    }
    let ghost after_n = parts@;
    if let Some(s) = size {
        parts.push(
            FormPart { name: "size", body: PartBody::Text(s.to_string()), file_name: None, mime: None },
        );
    }
    let ghost after_size = parts@;
    if let Some(f) = response_format {
        parts.push(
            FormPart {
                name: "response_format",
                body: PartBody::Text(f.to_string()),
                file_name: None,
                mime: None,
            },
        );
    }
    let ghost after_format = parts@;
    if let Some(u) = user {
        parts.push(FormPart { name: "user", body: PartBody::Text(u), file_name: None, mime: None });
    }
    assert(parts_view(after_n) =~= parts_view(start) + match n {
        Some(k) => seq![text_part("n"@, decimal_text(k as nat))],
        None => seq![],
    });
    assert(parts_view(after_size) =~= parts_view(after_n) + match size {
        Some(s) => seq![text_part("size"@, s.text())],
        None => seq![],
    });
    assert(parts_view(after_format) =~= parts_view(after_size) + match response_format {
        Some(f) => seq![text_part("response_format"@, f.text())],
        None => seq![],
    });
    assert(parts_view(parts@) =~= parts_view(after_format) + match user {
        Some(u) => seq![text_part("user"@, u@)],
        None => seq![],
    });
}

impl EditImgOptions {
    /// The multipart body of the edit request: the image with its file name
    /// and MIME type, the mask when given, the prompt, then each of `n`,
    /// `size`, `response_format` and `user` that is set, as text.
    pub fn into_parts(self) -> (r: Vec<FormPart>)
        ensures
            parts_view(r@) == edit_parts(self),
    {
        let ghost o = self;
        let mut parts: Vec<FormPart> = Vec::new();
        parts.push(
            FormPart {
                name: "image",
                body: PartBody::Bytes(self.img),
                file_name: Some(self.file_name),
                mime: Some(self.img_type),
            },
        );
        if let Some(m) = self.mask {
            parts.push(FormPart { name: "mask", body: PartBody::Bytes(m), file_name: None, mime: None });
        }
        parts.push(
            FormPart { name: "prompt", body: PartBody::Text(self.prompt), file_name: None, mime: None },
        );
        let ghost before = parts@;
        assert(parts_view(before) =~= seq![file_part("image"@, o.img@, o.file_name@, o.img_type)]
            + (match o.mask {
            Some(m) => seq![bytes_part("mask"@, m@)],
            None => seq![],
        }) + seq![text_part("prompt"@, o.prompt@)]);
        push_scalar_parts(&mut parts, self.n, self.size, self.response_format, self.user);
        assert(parts_view(parts@) =~= edit_parts(o));
        parts
    }
}

impl CreateImgVariationsOptions {
    /// The multipart body of the variation request: the image with its file
    /// name and MIME type, then each of `n`, `size`, `response_format` and
    /// `user` that is set, as text.
    pub fn into_parts(self) -> (r: Vec<FormPart>)
        ensures
            parts_view(r@) == variation_parts(self),
    {
        let ghost o = self;
        let mut parts: Vec<FormPart> = Vec::new();
        parts.push(
            FormPart {
                name: "image",
                body: PartBody::Bytes(self.img),
                file_name: Some(self.file_name),
                mime: Some(self.img_type),
            },
        );
        assert(parts_view(parts@) =~= seq![file_part("image"@, o.img@, o.file_name@, o.img_type)]);
        push_scalar_parts(&mut parts, self.n, self.size, self.response_format, self.user);
        assert(parts_view(parts@) =~= variation_parts(o));
        parts
    }
}

pub open spec fn bytes_check(b: Seq<u8>, e: ValidationError) -> Result<(), ValidationError> {
    if b.len() == 0 {
        Err(e)
    } else {
        Ok(())
    }
}

/// The JSON body of an image generation request; unset options are left out.
pub open spec fn create_img_body(o: CreateImgOptions) -> Seq<BodyField> {
    seq![field("prompt", FieldValue::Text(o.prompt))] + opt_field(
        "n",
        match o.n {
            Some(k) => Some(FieldValue::Unsigned(k as u64)),
            None => None,
        },
    ) + opt_field(
        "size",
        match o.size {
            Some(s) => Some(FieldValue::Size(s)),
            None => None,
        },
    ) + opt_field(
        "response_format",
        match o.response_format {
            Some(f) => Some(FieldValue::Format(f)),
            None => None,
        },
    ) + opt_field(
        "user",
        match o.user {
            Some(u) => Some(FieldValue::Text(u)),
            None => None,
        },
    )
}

impl CreateImgOptions {
    /// Options for `prompt` with one 256x256 image returned as a URL.
    pub fn default(prompt: &str) -> (r: Self)
        ensures
            r.prompt@ == prompt@,
            r.is_default(),
    {
        Self {
            prompt: prompt.to_owned(),
            n: Some(1),
            size: Some(ImgSize::Size256x256),
            response_format: Some(ImgFormat::Url),
            user: None,
        }
    }

    /// The optional fields are as `default` leaves them.
    pub open spec fn is_default(&self) -> bool {
        &&& self.n == Some(1u8)
        &&& self.size == Some(ImgSize::Size256x256)
        &&& self.response_format == Some(ImgFormat::Url)
        &&& self.user.is_none()
    }

    pub open spec fn check(&self) -> Result<(), ValidationError> {
        text_check(self.prompt@, ValidationError::EmptyPrompt)
    }

    /// Rejects an empty prompt.
    pub fn validate(&self) -> (r: Result<(), ValidationError>)
        ensures
            r == self.check(),
    {
        check_text(&self.prompt, ValidationError::EmptyPrompt)
    }

    /// The JSON body of the request: the prompt, then each option that is set.
    pub fn into_body(self) -> (r: Vec<BodyField>)
        ensures
            r@ == create_img_body(self),
    {
        let ghost o = self;
        let mut body: Vec<BodyField> = Vec::new();
        push_field(&mut body, "prompt", FieldValue::Text(self.prompt));
        push_opt_field(
            &mut body,
            "n",
            match self.n {
                Some(k) => Some(FieldValue::Unsigned(k as u64)),
                None => None,
            },
        );
        push_opt_field(
            &mut body,
            "size",
            match self.size {
                Some(s) => Some(FieldValue::Size(s)),
                None => None,
            },
        );
        push_opt_field(
            &mut body,
            "response_format",
            match self.response_format {
                Some(f) => Some(FieldValue::Format(f)),
                None => None,
            },
        );
        push_opt_field(
            &mut body,
            "user",
            match self.user {
                Some(u) => Some(FieldValue::Text(u)),
                None => None,
            },
        );
        assert(body@ =~= create_img_body(o));
        body
    }
}

impl EditImgOptions {
    /// Options that edit `img` as `prompt` asks, with no mask, returning one
    /// 256x256 image as a URL.
    pub fn default(file_name: &str, img: Vec<u8>, img_type: ImgType, prompt: &str) -> (r: Self)
        ensures
            r.file_name@ == file_name@,
            r.img == img,
            r.prompt@ == prompt@,
            r.img_type == img_type,
            r.is_default(),
    {
        Self {
            file_name: file_name.to_owned(),
            img,
            prompt: prompt.to_owned(),
            mask: None,
            n: Some(1),
            size: Some(ImgSize::Size256x256),
            response_format: Some(ImgFormat::Url),
            user: None,
            img_type,
        }
    }

    /// The optional fields are as `default` leaves them.
    pub open spec fn is_default(&self) -> bool {
        &&& self.mask.is_none()
        &&& self.n == Some(1u8)
        &&& self.size == Some(ImgSize::Size256x256)
        &&& self.response_format == Some(ImgFormat::Url)
        &&& self.user.is_none()
    }

    pub open spec fn check(&self) -> Result<(), ValidationError> {
        first_error(
            bytes_check(self.img@, ValidationError::EmptyImage),
            text_check(self.prompt@, ValidationError::EmptyPrompt),
        )
    }

    /// Rejects an empty image, then an empty prompt.
    pub fn validate(&self) -> (r: Result<(), ValidationError>)
        ensures
            r == self.check(),
    {
        if self.img.len() == 0 {
            return Err(ValidationError::EmptyImage);
        }
        check_text(&self.prompt, ValidationError::EmptyPrompt)
    }
}

impl CreateImgVariationsOptions {
    /// Options that ask for one variation of `img`, 256x256, as a URL.
    pub fn default(file_name: &str, img: Vec<u8>, img_type: ImgType) -> (r: Self)
        ensures
            r.file_name@ == file_name@,
            r.img == img,
            r.img_type == img_type,
            r.is_default(),
    {
        Self {
            file_name: file_name.to_owned(),
            img,
            n: Some(1),
            size: Some(ImgSize::Size256x256),
            response_format: Some(ImgFormat::Url),
            user: None,
            img_type,
        }
    }

    /// The optional fields are as `default` leaves them.
    pub open spec fn is_default(&self) -> bool {
        &&& self.n == Some(1u8)
        &&& self.size == Some(ImgSize::Size256x256)
        &&& self.response_format == Some(ImgFormat::Url)
        &&& self.user.is_none()
    }

    pub open spec fn check(&self) -> Result<(), ValidationError> {
        bytes_check(self.img@, ValidationError::EmptyImage)
    }

    /// Rejects an empty image.
    pub fn validate(&self) -> (r: Result<(), ValidationError>)
        ensures
            r == self.check(),
    {
        if self.img.len() == 0 {
            Err(ValidationError::EmptyImage)
        } else {
            Ok(())
        }
    }
}

/// A generated image, as the reply gives it: a URL, or the image itself in
/// base64, depending on the requested `response_format`.
#[derive(Debug, Clone, PartialEq, Eq)]
pub enum ImgData {
    Url(String),
    Base64(String),
}

/// One generated image.
#[derive(Debug, Clone, PartialEq, Eq)]
pub struct Img {
    pub img_data: ImgData,
}

/// The reply to an image request.
#[derive(Debug, Clone, PartialEq, Eq)]
pub struct ImgResponse {
    pub created: u64,
    pub data: Vec<Img>,
}

impl Img {
    /// Builds an image from the `url` and `b64_json` keys of one reply entry.
    /// Exactly one of them must be present; otherwise the reply does not
    /// match the schema.
    pub fn from_reply(url: Option<String>, b64_json: Option<String>) -> (r: Result<Img, ClientError>)
        ensures
            match (url, b64_json) {
                (Some(u), None) => r == Ok::<Img, ClientError>(Img { img_data: ImgData::Url(u) }),
                (None, Some(b)) => r == Ok::<Img, ClientError>(
                    Img { img_data: ImgData::Base64(b) },
                ),
                _ => r is Err && r->Err_0 is Decode,
            },
    {
        match (url, b64_json) {
            (Some(u), None) => Ok(Img { img_data: ImgData::Url(u) }),
            (None, Some(b)) => Ok(Img { img_data: ImgData::Base64(b) }),
            (Some(_), Some(_)) => Err(
                ClientError::Decode(String::from_str("image entry has both url and b64_json")),
            ),
            (None, None) => Err(
                ClientError::Decode(String::from_str("image entry has neither url nor b64_json")),
            ),
        }
    }
}

/// Image generation options made by `default` are sent with the keys
/// `prompt`, `n`, `size` and `response_format`; `user` is left out.
pub proof fn create_img_default_body_keys(o: CreateImgOptions)
    requires
        o.is_default(),
    ensures
        field_names(create_img_body(o)) == seq!["prompt", "n", "size", "response_format"],
{
    assert(field_names(create_img_body(o)) =~= seq!["prompt", "n", "size", "response_format"]);
}

/// The parts of `parts` with the given name.
pub open spec fn parts_named(parts: Seq<PartView>, name: Seq<char>) -> Seq<PartView> {
    parts.filter(|p: PartView| p.name == name)
}

proof fn single_named(p: PartView, name: Seq<char>)
    ensures
        parts_named(seq![p], name) == (if p.name == name {
            seq![p]
        } else {
            seq![]
        }),
{
    reveal_with_fuel(Seq::filter, 2);
    assert(seq![p].drop_last() =~= Seq::<PartView>::empty());
}

proof fn optional_named(ps: Seq<PartView>, name: Seq<char>)
    requires
        ps.len() <= 1,
        forall|i: int| 0 <= i < ps.len() ==> ps[i].name != name,
    ensures
        parts_named(ps, name) == Seq::<PartView>::empty(),
{
    if ps.len() == 1 {
        assert(ps =~= seq![ps[0]]);
        single_named(ps[0], name);
    } else {
        reveal_with_fuel(Seq::filter, 1);
    }
}

proof fn literal_names()
    ensures
        "image"@ != "mask"@,
        "image"@ != "prompt"@,
        "image"@ != "n"@,
        "image"@ != "size"@,
        "image"@ != "response_format"@,
        "image"@ != "user"@,
        "mask"@ != "prompt"@,
        "mask"@ != "n"@,
        "mask"@ != "size"@,
        "mask"@ != "response_format"@,
        "mask"@ != "user"@,
        "size"@ != "image"@,
        "size"@ != "prompt"@,
        "size"@ != "n"@,
        "size"@ != "response_format"@,
        "size"@ != "user"@,
{
    reveal_strlit("image");
    reveal_strlit("mask");
    reveal_strlit("prompt");
    reveal_strlit("n");
    reveal_strlit("size");
    reveal_strlit("response_format");
    reveal_strlit("user");
    assert("image"@.len() != "mask"@.len());
    assert("image"@.len() != "prompt"@.len());
    assert("image"@.len() != "n"@.len());
    assert("image"@[0] != "size"@[0]);
    assert("image"@.len() != "response_format"@.len());
    assert("image"@.len() != "user"@.len());
    assert("mask"@.len() != "prompt"@.len());
    assert("mask"@.len() != "n"@.len());
    assert("mask"@[0] != "size"@[0]);
    assert("mask"@.len() != "response_format"@.len());
    assert("mask"@[0] != "user"@[0]);
    assert("size"@.len() != "prompt"@.len());
    assert("size"@.len() != "n"@.len());
    assert("size"@.len() != "response_format"@.len());
    assert("size"@[0] != "user"@[0]);
}

/// The parts named `name` among the scalar parts: none for `image` and
/// `mask`, and for `size` exactly the size part when a size is set.
proof fn scalar_parts_named(
    n: Option<u8>,
    size: Option<ImgSize>,
    response_format: Option<ImgFormat>,
    user: Option<String>,
    name: Seq<char>,
)
    requires
        name == "image"@ || name == "mask"@ || name == "size"@,
    ensures
        name != "size"@ ==> parts_named(scalar_parts(n, size, response_format, user), name)
            == Seq::<PartView>::empty(),
        name == "size"@ ==> parts_named(scalar_parts(n, size, response_format, user), name)
            == match size {
            Some(s) => seq![text_part("size"@, s.text())],
            None => Seq::<PartView>::empty(),
        },
{
    broadcast use Seq::filter_distributes_over_add;

    literal_names();
    let pn = match n {
        Some(k) => seq![text_part("n"@, decimal_text(k as nat))],
        None => seq![],
    };
    let ps = match size {
        Some(s) => seq![text_part("size"@, s.text())],
        None => seq![],
    };
    let pf = match response_format {
        Some(f) => seq![text_part("response_format"@, f.text())],
        None => seq![],
    };
    let pu = match user {
        Some(u) => seq![text_part("user"@, u@)],
        None => seq![],
    };
    assert(scalar_parts(n, size, response_format, user) == pn + ps + pf + pu);
    optional_named(pn, name);
    optional_named(pf, name);
    optional_named(pu, name);
    if name != "size"@ {
        optional_named(ps, name);
    } else if ps.len() == 1 {
        single_named(ps[0], name);
        assert(ps =~= seq![ps[0]]);
    } else {
        reveal_with_fuel(Seq::filter, 1);
    }
    assert(parts_named(pn + ps + pf + pu, name) == parts_named(pn, name) + parts_named(ps, name)
        + parts_named(pf, name) + parts_named(pu, name));
    assert(parts_named(pn + ps + pf + pu, name) =~= parts_named(ps, name));
}

/// An image edit with a mask is sent with exactly one `image` part, which
/// carries the image's bytes with its file name and MIME type, exactly one
/// `mask` part, which carries the mask's bytes, and, when the size is
/// 256x256, exactly one `size` part, which carries the text `256x256`.
pub proof fn edit_parts_with_mask(o: EditImgOptions)
    requires
        o.mask is Some,
    ensures
        parts_named(edit_parts(o), "image"@) == seq![
            file_part("image"@, o.img@, o.file_name@, o.img_type),
        ],
        parts_named(edit_parts(o), "mask"@) == seq![bytes_part("mask"@, o.mask->Some_0@)],
        o.size == Some(ImgSize::Size256x256) ==> parts_named(edit_parts(o), "size"@) == seq![
            text_part("size"@, "256x256"@),
        ],
{
    broadcast use Seq::filter_distributes_over_add;

    literal_names();
    let image = file_part("image"@, o.img@, o.file_name@, o.img_type);
    let mask = bytes_part("mask"@, o.mask->Some_0@);
    let prompt = text_part("prompt"@, o.prompt@);
    let rest = scalar_parts(o.n, o.size, o.response_format, o.user);
    assert(edit_parts(o) == seq![image] + seq![mask] + seq![prompt] + rest);
    single_named(image, "image"@);
    single_named(mask, "image"@);
    single_named(prompt, "image"@);
    single_named(image, "mask"@);
    single_named(mask, "mask"@);
    single_named(prompt, "mask"@);
    single_named(image, "size"@);
    single_named(mask, "size"@);
    single_named(prompt, "size"@);
    scalar_parts_named(o.n, o.size, o.response_format, o.user, "image"@);
    scalar_parts_named(o.n, o.size, o.response_format, o.user, "mask"@);
    scalar_parts_named(o.n, o.size, o.response_format, o.user, "size"@);
    assert(parts_named(edit_parts(o), "image"@) =~= seq![image]);
    assert(parts_named(edit_parts(o), "mask"@) =~= seq![mask]);
    if o.size == Some(ImgSize::Size256x256) {
        assert(parts_named(edit_parts(o), "size"@) =~= seq![text_part("size"@, "256x256"@)]);
    }
}

pub open spec fn part_names(parts: Seq<PartView>) -> Seq<Seq<char>> {
    parts.map_values(|p: PartView| p.name)
}

/// Image edit options made by `default` are sent with the parts `image`,
/// `prompt`, `n`, `size` and `response_format`; `mask` and `user` are left
/// out.
pub proof fn edit_img_default_part_names(o: EditImgOptions)
    requires
        o.is_default(),
    ensures
        part_names(edit_parts(o)) == seq![
            "image"@,
            "prompt"@,
            "n"@,
            "size"@,
            "response_format"@,
        ],
{
    assert(part_names(edit_parts(o)) =~= seq![
        "image"@,
        "prompt"@,
        "n"@,
        "size"@,
        "response_format"@,
    ]);
}

/// Image variation options made by `default` are sent with the parts
/// `image`, `n`, `size` and `response_format`; `user` is left out.
pub proof fn variation_default_part_names(o: CreateImgVariationsOptions)
    requires
        o.is_default(),
    ensures
        part_names(variation_parts(o)) == seq!["image"@, "n"@, "size"@, "response_format"@],
{
    assert(part_names(variation_parts(o)) =~= seq!["image"@, "n"@, "size"@, "response_format"@]);
}

} // verus!
