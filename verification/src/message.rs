//! Documents, the protocol-independent replies of the game, and how they are
//! rendered for each chat protocol.
use crate::config;
use crate::config::{
    is_safe_asset_key, validate_public_https_url, IllustrationConfig, IllustrationMode,
    MessageConfig,
};
use crate::host::{CommandRequest, CommandResponse, Reply};
use crate::outside;
use crate::outside::{base64_encode, json_lookup, json_quote};
use crate::signature;
use crate::text;
use crate::text::{any_control, blank, cat2, cat3, cat4, cat5, cat7, join, push_text, u64_text};
use vstd::prelude::*;
use vstd::string::*;

verus! {

/// The largest inline image, in bytes.
pub const MAX_INLINE_IMAGE_BYTES: usize = 8388608;

/// Where the picture of an illustration comes from.
pub(crate) enum IllustrationSource {
    DirectHttps(String),
    RemoteAsset(String),
    InlineImage(Vec<u8>),
}

/// The mathematical form of a source.
pub enum Source {
    DirectHttps(Seq<char>),
    RemoteAsset(Seq<char>),
    InlineImage(Seq<u8>),
}

/// A picture that goes with a document.
pub struct Illustration {
    alt: String,
    source: IllustrationSource,
    width: u16,
    height: u16,
}

/// The mathematical form of an illustration.
pub struct Picture {
    pub alt: Seq<char>,
    pub source: Source,
    pub width: u16,
    pub height: u16,
}

pub(crate) open spec fn source_view(source: IllustrationSource) -> Source {
    match source {
        IllustrationSource::DirectHttps(url) => Source::DirectHttps(url@),
        IllustrationSource::RemoteAsset(key) => Source::RemoteAsset(key@),
        IllustrationSource::InlineImage(bytes) => Source::InlineImage(bytes@),
    }
}

impl View for Illustration {
    type V = Picture;

    closed spec fn view(&self) -> Picture {
        Picture {
            alt: self.alt@,
            source: source_view(self.source),
            width: self.width,
            height: self.height,
        }
    }
}

/// A caption and a size that an illustration may have.
pub open spec fn metadata_error(alt: Seq<char>, width: u16, height: u16) -> Option<Seq<char>> {
    if text::is_blank(alt) || alt.len() > 80 || text::has_control(alt) {
        Some("插图说明长度必须在 1 到 80 个字符之间"@)
    } else if width == 0 || height == 0 || width > 4096 || height > 4096 {
        Some("插图宽高必须在 1 到 4096 像素之间"@)
    } else {
        None
    }
}

fn validate_illustration_metadata(alt: &str, width: u16, height: u16) -> (result: Result<
    (),
    String,
>)
    ensures
        config::failure(result) == metadata_error(alt@, width, height),
{
    if blank(alt) || alt.unicode_len() > 80 || any_control(alt) {
        return Err("插图说明长度必须在 1 到 80 个字符之间".to_owned());
    }
    if width == 0 || height == 0 || width > 4096 || height > 4096 {
        return Err("插图宽高必须在 1 到 4096 像素之间".to_owned());
    }
    Ok(())
}

/// An address that a picture may have.
pub open spec fn url_error(url: Seq<char>) -> Option<Seq<char>> {
    if config::is_public_https_url(url, true) {
        None
    } else {
        Some("QQ 官方 Markdown 插图必须使用公网 HTTPS 地址"@)
    }
}

fn validate_https_image_url(value: &str) -> (result: Result<(), String>)
    ensures
        config::failure(result) == url_error(value@),
{
    match validate_public_https_url(value, true) {
        Ok(_) => Ok(()),
        Err(_) => Err("QQ 官方 Markdown 插图必须使用公网 HTTPS 地址".to_owned()),
    }
}

/// A key that a remote picture may have.
pub open spec fn key_error(key: Seq<char>) -> Option<Seq<char>> {
    if config::is_asset_key(key) {
        None
    } else {
        Some("远程插图 asset_key 格式无效"@)
    }
}

fn validate_asset_key(value: &str) -> (result: Result<(), String>)
    ensures
        config::failure(result) == key_error(value@),
{
    if !is_safe_asset_key(value) {
        return Err("远程插图 asset_key 格式无效".to_owned());
    }
    Ok(())
}

/// Bytes that start like a bitmap file.
pub open spec fn is_bitmap(bytes: Seq<u8>) -> bool {
    signature::is_png(bytes) || signature::is_jpeg(bytes) || signature::is_webp(bytes)
        || signature::is_gif(bytes) || signature::is_bmp(bytes)
}

/// Bytes that an inline picture may have.
pub open spec fn bytes_error(bytes: Seq<u8>) -> Option<Seq<char>> {
    if bytes.len() == 0 || bytes.len() > MAX_INLINE_IMAGE_BYTES {
        Some("内联图片大小必须在 1 字节到 "@ + text::decimal(8) + " MiB 之间"@)
    } else if !is_bitmap(bytes) {
        Some("内联图片必须是 PNG、JPEG、WebP、GIF 或 BMP 位图"@)
    } else {
        None
    }
}

fn validate_inline_image_bytes(bytes: &[u8]) -> (result: Result<(), String>)
    ensures
        config::failure(result) == bytes_error(bytes@),
{
    if bytes.len() == 0 || bytes.len() > MAX_INLINE_IMAGE_BYTES {
        return Err(cat3("内联图片大小必须在 1 字节到 ", &u64_text(8), " MiB 之间"));
    }
    let recognized = signature::png(bytes) || signature::jpeg(bytes) || signature::webp(bytes)
        || signature::gif(bytes) || signature::bmp(bytes);
    if !recognized {
        return Err("内联图片必须是 PNG、JPEG、WebP、GIF 或 BMP 位图".to_owned());
    }
    Ok(())
}

/// What holds of every illustration that exists.
pub open spec fn picture_ok(picture: Picture) -> bool {
    &&& metadata_error(picture.alt, picture.width, picture.height) is None
    &&& match picture.source {
        Source::DirectHttps(url) => url_error(url) is None,
        Source::RemoteAsset(key) => key_error(key) is None,
        Source::InlineImage(bytes) => bytes_error(bytes) is None,
    }
}

/// The picture that a constructor gives, or the message with which it refuses.
pub open spec fn made(result: Result<Illustration, String>) -> Result<Picture, Seq<char>> {
    match result {
        Ok(illustration) => Ok(illustration@),
        Err(message) => Err(message@),
    }
}

/// The first of two errors, or the value.
pub open spec fn checked(
    first: Option<Seq<char>>,
    second: Option<Seq<char>>,
    picture: Picture,
) -> Result<Picture, Seq<char>> {
    match first {
        Some(message) => Err(message),
        None => match second {
            Some(message) => Err(message),
            None => Ok(picture),
        },
    }
}

/// What may be told of where a picture comes from: neither an address nor what the
/// picture shows.
pub open spec fn described(source: Source) -> Seq<char> {
    match source {
        Source::DirectHttps(_) => "DirectHttps(<validated URL>)"@,
        Source::RemoteAsset(key) => "RemoteAsset(\""@ + key + "\")"@,
        Source::InlineImage(bytes) => "InlineImage { byte_length: "@ + text::decimal(bytes.len())
            + " }"@,
    }
}

impl Illustration {
    #[verifier::type_invariant]
    spec fn keeps_the_rules(self) -> bool {
        picture_ok(self@)
    }

    /// What may be told of where the picture comes from.
    pub fn describe_source(&self) -> (description: String)
        ensures
            description@ == described(self@.source),
    {
        match &self.source {
            IllustrationSource::DirectHttps(_) => "DirectHttps(<validated URL>)".to_owned(),
            IllustrationSource::RemoteAsset(key) => text::cat3(
                "RemoteAsset(\"",
                key.as_str(),
                "\")",
            ),
            IllustrationSource::InlineImage(bytes) => text::cat3(
                "InlineImage { byte_length: ",
                text::usize_text(bytes.len()).as_str(),
                " }",
            ),
        }
    }

    /// A picture at a public HTTPS address.
    pub fn https(alt: &str, https_url: &str, width: u16, height: u16) -> (result: Result<
        Self,
        String,
    >)
        ensures
            made(result) == checked(
                url_error(https_url@),
                metadata_error(alt@, width, height),
                (Picture { alt: alt@, source: Source::DirectHttps(https_url@), width, height }),
            ),
    {
        match validate_https_image_url(https_url) {
            Ok(_) => {},
            Err(message) => return Err(message),
        }
        match validate_illustration_metadata(alt, width, height) {
            Ok(_) => {},
            Err(message) => return Err(message),
        }
        Ok(
            Illustration {
                alt: alt.to_owned(),
                source: IllustrationSource::DirectHttps(https_url.to_owned()),
                width,
                height,
            },
        )
    }

    /// A picture that the configured media service holds under a key.
    pub fn remote_asset(alt: &str, asset_key: &str, width: u16, height: u16) -> (result: Result<
        Self,
        String,
    >)
        ensures
            made(result) == checked(
                metadata_error(alt@, width, height),
                key_error(asset_key@),
                (Picture { alt: alt@, source: Source::RemoteAsset(asset_key@), width, height }),
            ),
    {
        match validate_illustration_metadata(alt, width, height) {
            Ok(_) => {},
            Err(message) => return Err(message),
        }
        match validate_asset_key(asset_key) {
            Ok(_) => {},
            Err(message) => return Err(message),
        }
        Ok(
            Illustration {
                alt: alt.to_owned(),
                source: IllustrationSource::RemoteAsset(asset_key.to_owned()),
                width,
                height,
            },
        )
    }

    /// A picture whose bytes travel with the message.
    pub fn inline_image_bytes(alt: &str, bytes: &[u8], width: u16, height: u16) -> (result: Result<
        Self,
        String,
    >)
        ensures
            made(result) == checked(
                metadata_error(alt@, width, height),
                bytes_error(bytes@),
                (Picture { alt: alt@, source: Source::InlineImage(bytes@), width, height }),
            ),
    {
        match validate_illustration_metadata(alt, width, height) {
            Ok(_) => {},
            Err(message) => return Err(message),
        }
        match validate_inline_image_bytes(bytes) {
            Ok(_) => {},
            Err(message) => return Err(message),
        }
        Ok(
            Illustration {
                alt: alt.to_owned(),
                source: IllustrationSource::InlineImage(vstd::slice::slice_to_vec(bytes)),
                width,
                height,
            },
        )
    }
}

/// A reply of the game: what it says, not how a protocol shows it.
pub struct GameDocument {
    title: String,
    lines: Vec<String>,
    fields: Vec<(String, String)>,
    commands: Vec<String>,
    notice: Option<String>,
    illustration: Option<Illustration>,
}

/// The mathematical form of a document.
#[verifier::ext_equal]
pub struct Document {
    pub title: Seq<char>,
    pub lines: Seq<Seq<char>>,
    pub fields: Seq<(Seq<char>, Seq<char>)>,
    pub commands: Seq<Seq<char>>,
    pub notice: Option<Seq<char>>,
    pub illustration: Option<Picture>,
}

/// A document with nothing but a title.
pub open spec fn titled(title: Seq<char>) -> Document {
    Document {
        title,
        lines: Seq::empty(),
        fields: Seq::empty(),
        commands: Seq::empty(),
        notice: None,
        illustration: None,
    }
}

impl Document {
    /// The document with one more line.
    pub open spec fn line(self, line: Seq<char>) -> Document {
        Document { lines: self.lines.push(line), ..self }
    }

    /// The document with one more field.
    pub open spec fn field(self, label: Seq<char>, value: Seq<char>) -> Document {
        Document { fields: self.fields.push((label, value)), ..self }
    }

    /// The document with one more command.
    pub open spec fn command(self, command: Seq<char>) -> Document {
        Document { commands: self.commands.push(command), ..self }
    }

    /// The document with one more command and what it does.
    pub open spec fn command_help(self, command: Seq<char>, description: Seq<char>) -> Document {
        self.command(command + "："@ + description)
    }

    /// The document with this notice.
    pub open spec fn notice(self, notice: Seq<char>) -> Document {
        Document { notice: Some(notice), ..self }
    }

    /// The document with this illustration.
    pub open spec fn illustration(self, illustration: Picture) -> Document {
        Document { illustration: Some(illustration), ..self }
    }

    /// The document with an illustration where there is one.
    pub open spec fn illustration_if(self, illustration: Option<Picture>) -> Document {
        match illustration {
            Some(illustration) => self.illustration(illustration),
            None => self,
        }
    }
}

/// The contents of a list of pairs.
pub open spec fn pairs(list: Seq<(String, String)>) -> Seq<(Seq<char>, Seq<char>)> {
    Seq::new(list.len(), |i: int| (list[i].0@, list[i].1@))
}

/// The picture of an optional illustration.
pub open spec fn optional_picture(illustration: Option<Illustration>) -> Option<Picture> {
    match illustration {
        Some(illustration) => Some(illustration@),
        None => None,
    }
}

impl View for GameDocument {
    type V = Document;

    closed spec fn view(&self) -> Document {
        Document {
            title: self.title@,
            lines: text::texts(self.lines@),
            fields: pairs(self.fields@),
            commands: text::texts(self.commands@),
            notice: text::optional_text(self.notice),
            illustration: optional_picture(self.illustration),
        }
    }
}

impl GameDocument {
    pub fn new(title: &str) -> (document: Self)
        ensures
            document@ == titled(title@),
    {
        let document = GameDocument {
            title: title.to_owned(),
            lines: Vec::new(),
            fields: Vec::new(),
            commands: Vec::new(),
            notice: None,
            illustration: None,
        };
        assert(document@ =~= titled(title@));
        document
    }

    pub fn line(self, line: &str) -> (document: Self)
        ensures
            document@ == self@.line(line@),
    {
        let mut document = self;
        push_text(&mut document.lines, line.to_owned());
        document
    }

    pub fn field(self, label: &str, value: &str) -> (document: Self)
        ensures
            document@ == self@.field(label@, value@),
    {
        let mut document = self;
        document.fields.push((label.to_owned(), value.to_owned()));
        assert(document@.fields =~= self@.fields.push((label@, value@)));
        document
    }

    pub fn command(self, command: &str) -> (document: Self)
        ensures
            document@ == self@.command(command@),
    {
        let mut document = self;
        push_text(&mut document.commands, command.to_owned());
        document
    }

    /// Adds a command together with a short explanation.
    pub fn command_help(self, command: &str, description: &str) -> (document: Self)
        ensures
            document@ == self@.command_help(command@, description@),
    {
        let mut document = self;
        push_text(&mut document.commands, cat3(command, "：", description));
        document
    }

    pub fn notice(self, notice: &str) -> (document: Self)
        ensures
            document@ == self@.notice(notice@),
    {
        let mut document = self;
        document.notice = Some(notice.to_owned());
        document
    }

    /// Sets the main illustration; a reply carries at most one.
    pub fn illustration(self, illustration: Illustration) -> (document: Self)
        ensures
            document@ == self@.illustration(illustration@),
    {
        let mut document = self;
        document.illustration = Some(illustration);
        document
    }

    pub fn illustration_if(self, illustration: Option<Illustration>) -> (document: Self)
        ensures
            document@ == self@.illustration_if(optional_picture(illustration)),
    {
        match illustration {
            Some(illustration) => self.illustration(illustration),
            None => self,
        }
    }

    pub fn has_illustration(&self) -> (answer: bool)
        ensures
            answer == (self@.illustration is Some),
    {
        self.illustration.is_some()
    }
}

/// Each element of a list behind a prefix.
pub open spec fn prefixed(prefix: Seq<char>, list: Seq<Seq<char>>) -> Seq<Seq<char>> {
    list.map_values(|element: Seq<char>| prefix + element)
}

/// The lines of a document as plain text.
pub open spec fn text_lines(document: Document) -> Seq<Seq<char>> {
    let head = seq!["== "@ + document.title + " =="@];
    let fields = document.fields.map_values(
        |field: (Seq<char>, Seq<char>)| field.0 + "："@ + field.1,
    );
    let commands = if document.commands.len() > 0 {
        seq!["可用命令："@] + prefixed("- "@, document.commands)
    } else {
        Seq::empty()
    };
    let notice = match document.notice {
        Some(notice) => seq!["提示："@ + notice],
        None => Seq::empty(),
    };
    head + document.lines + fields + commands + notice
}

pub(crate) fn push_all(output: &mut Vec<String>, list: &Vec<String>)
    ensures
        text::texts(final(output)@) == text::texts(old(output)@) + text::texts(list@),
{
    let ghost start = text::texts(output@);
    let ghost all = text::texts(list@);
    let mut i: usize = 0;
    assert(start + all.take(0) =~= start);
    while i < list.len()
        invariant
            i <= list@.len(),
            all == text::texts(list@),
            text::texts(output@) == start + all.take(i as int),
        decreases list@.len() - i,
    {
        push_text(output, list[i].clone());
        i = i + 1;
        assert(all.take(i as int) =~= all.take(i - 1).push(all[i - 1]));
        assert((start + all.take(i - 1)).push(all[i - 1]) =~= start + all.take(i as int));
    }
    assert(all.take(all.len() as int) =~= all);
}

fn push_prefixed(output: &mut Vec<String>, prefix: &str, list: &Vec<String>)
    ensures
        text::texts(final(output)@) == text::texts(old(output)@) + prefixed(
            prefix@,
            text::texts(list@),
        ),
{
    let ghost start = text::texts(output@);
    let ghost all = prefixed(prefix@, text::texts(list@));
    let mut i: usize = 0;
    assert(start + all.take(0) =~= start);
    while i < list.len()
        invariant
            i <= list@.len(),
            all == prefixed(prefix@, text::texts(list@)),
            text::texts(output@) == start + all.take(i as int),
        decreases list@.len() - i,
    {
        push_text(output, cat2(prefix, &list[i]));
        i = i + 1;
        assert(all.take(i as int) =~= all.take(i - 1).push(all[i - 1]));
        assert((start + all.take(i - 1)).push(all[i - 1]) =~= start + all.take(i as int));
    }
    assert(all.take(all.len() as int) =~= all);
}

/// A document as plain text.
pub fn render_text(document: &GameDocument) -> (output: String)
    ensures
        output@ == text::joined(text_lines(document@), "\n"@),
{
    let mut output: Vec<String> = Vec::new();
    assert(text::texts(output@) =~= Seq::empty());
    push_text(&mut output, cat3("== ", &document.title, " =="));
    let ghost head = seq!["== "@ + document@.title + " =="@];
    assert(text::texts(output@) =~= head);
    push_all(&mut output, &document.lines);
    let ghost before = text::texts(output@);
    let ghost fields = document@.fields.map_values(
        |field: (Seq<char>, Seq<char>)| field.0 + "："@ + field.1,
    );
    let mut i: usize = 0;
    assert(before + fields.take(0) =~= before);
    while i < document.fields.len()
        invariant
            i <= document.fields@.len(),
            fields == document@.fields.map_values(
                |field: (Seq<char>, Seq<char>)| field.0 + "："@ + field.1,
            ),
            text::texts(output@) == before + fields.take(i as int),
        decreases document.fields@.len() - i,
    {
        push_text(&mut output, cat3(&document.fields[i].0, "：", &document.fields[i].1));
        i = i + 1;
        assert(document@.fields[i - 1] == (document.fields@[i - 1].0@, document.fields@[i - 1].1@));
        assert(fields.take(i as int) =~= fields.take(i - 1).push(fields[i - 1]));
        assert((before + fields.take(i - 1)).push(fields[i - 1]) =~= before + fields.take(i as int));
    }
    assert(fields.take(fields.len() as int) =~= fields);
    let ghost before = text::texts(output@);
    if document.commands.len() > 0 {
        push_text(&mut output, "可用命令：".to_owned());
        push_prefixed(&mut output, "- ", &document.commands);
        assert(text::texts(output@) =~= before + (seq!["可用命令："@] + prefixed(
            "- "@,
            document@.commands,
        )));
    } else {
        assert(text::texts(output@) =~= before + Seq::<Seq<char>>::empty());
    }
    let ghost before = text::texts(output@);
    match &document.notice {
        Some(notice) => {
            push_text(&mut output, cat2("提示：", notice));
            assert(text::texts(output@) =~= before + seq!["提示："@ + notice@]);
        },
        None => {
            assert(text::texts(output@) =~= before + Seq::<Seq<char>>::empty());
        },
    }
    join(&output, "\n")
}

/// A character that Markdown reads as markup.
pub open spec fn is_markup(c: char) -> bool {
    c == '\\' || c == '`' || c == '*' || c == '_' || c == '{' || c == '}' || c == '[' || c == ']'
        || c == '<' || c == '>' || c == '#' || c == '+' || c == '-' || c == '!' || c == '|'
}

/// A text with a backslash before every markup character.
pub open spec fn escaped(value: Seq<char>) -> Seq<char>
    decreases value.len(),
{
    if value.len() == 0 {
        Seq::empty()
    } else {
        let before = escaped(value.drop_last());
        if is_markup(value.last()) {
            before.push('\\').push(value.last())
        } else {
            before.push(value.last())
        }
    }
}

/// Puts a backslash before every markup character of a text.
pub fn escape_markdown(value: &str) -> (result: String)
    ensures
        result@ == escaped(value@),
        unescaped(result@) == value@,
{
    let characters = text::chars_of(value);
    let mut result = String::new();
    let mut i: usize = 0;
    while i < characters.len()
        invariant
            i <= characters@.len(),
            characters@ == value@,
            result@ == escaped(value@.take(i as int)),
        decreases characters@.len() - i,
    {
        let c = characters[i];
        if c == '\\' || c == '`' || c == '*' || c == '_' || c == '{' || c == '}' || c == '[' || c
            == ']' || c == '<' || c == '>' || c == '#' || c == '+' || c == '-' || c == '!' || c
            == '|' {
            result.push('\\');
        }
        result.push(c);
        i = i + 1;
        assert(value@.take(i as int).drop_last() =~= value@.take(i - 1));
    }
    assert(value@.take(value@.len() as int) =~= value@);
    proof {
        escaping_keeps_the_text(value@);
    }
    result
}

/// A text without the backslash before each escaped character.
pub open spec fn unescaped(value: Seq<char>) -> Seq<char>
    decreases value.len(),
{
    if value.len() == 0 {
        Seq::empty()
    } else if value[0] == '\\' && value.len() > 1 {
        seq![value[1]] + unescaped(value.skip(2))
    } else {
        seq![value[0]] + unescaped(value.skip(1))
    }
}

/// The escapes of two texts, one behind the other, are the escape of both texts joined.
pub proof fn escaping_distributes_over_joining(a: Seq<char>, b: Seq<char>)
    ensures
        escaped(a + b) == escaped(a) + escaped(b),
    decreases b.len(),
{
    if b.len() == 0 {
        assert(a + b =~= a);
        assert(escaped(a) + escaped(b) =~= escaped(a));
    } else {
        escaping_distributes_over_joining(a, b.drop_last());
        assert((a + b).drop_last() =~= a + b.drop_last());
        assert((a + b).last() == b.last());
        assert(escaped(a + b) =~= escaped(a) + escaped(b));
    }
}

/// A character of markup gets a backslash before it, and every other character stays as
/// it is.
pub proof fn one_character_is_escaped(c: char)
    ensures
        escaped(seq![c]) == (if is_markup(c) {
            seq!['\\', c]
        } else {
            seq![c]
        }),
{
    assert(seq![c].drop_last() =~= Seq::empty());
    assert(escaped(seq![c].drop_last()) =~= Seq::empty());
}

/// Escaping loses nothing: a Markdown reader that drops the backslashes sees the
/// text as it was, with no character of it acting as markup.
pub proof fn escaping_keeps_the_text(value: Seq<char>)
    ensures
        unescaped(escaped(value)) == value,
    decreases value.len(),
{
    if value.len() > 0 {
        let first = seq![value[0]];
        let rest = value.skip(1);
        assert(value =~= first + rest);
        escaping_distributes_over_joining(first, rest);
        escaping_keeps_the_text(rest);
        one_character_is_escaped(value[0]);
        if is_markup(value[0]) {
            assert(escaped(value).skip(2) =~= escaped(rest));
        } else {
            assert(escaped(value).skip(1) =~= escaped(rest));
        }
        assert(escaped(value)[0] == escaped(first)[0]);
    }
}

/// Two texts that differ have escapes that differ.
pub proof fn different_texts_are_escaped_differently(left: Seq<char>, right: Seq<char>)
    requires
        left != right,
    ensures
        escaped(left) != escaped(right),
{
    escaping_keeps_the_text(left);
    escaping_keeps_the_text(right);
}

/// A list with its elements escaped.
pub open spec fn escaped_all(list: Seq<Seq<char>>) -> Seq<Seq<char>> {
    list.map_values(|element: Seq<char>| escaped(element))
}

fn escape_all(list: &Vec<String>) -> (result: Vec<String>)
    ensures
        text::texts(result@) == escaped_all(text::texts(list@)),
{
    let mut result: Vec<String> = Vec::new();
    let ghost all = escaped_all(text::texts(list@));
    let mut i: usize = 0;
    assert(text::texts(result@) =~= all.take(0));
    while i < list.len()
        invariant
            i <= list@.len(),
            all == escaped_all(text::texts(list@)),
            text::texts(result@) == all.take(i as int),
        decreases list@.len() - i,
    {
        push_text(&mut result, escape_markdown(&list[i]));
        i = i + 1;
        assert(all.take(i as int) =~= all.take(i - 1).push(all[i - 1]));
    }
    assert(all.take(all.len() as int) =~= all);
    result
}

/// An illustration as a Markdown image with its size.
pub open spec fn image_markup(picture: Picture, url: Seq<char>) -> Seq<char> {
    "!["@ + escaped(picture.alt) + " #"@ + text::decimal(picture.width as nat) + "px #"@
        + text::decimal(picture.height as nat) + "px]("@ + url + ")"@
}

fn markdown_image(illustration: &Illustration, url: &str) -> (markup: String)
    ensures
        markup@ == image_markup(illustration@, url@),
{
    let mut markup = cat7(
        "![",
        &escape_markdown(&illustration.alt),
        " #",
        &u64_text(illustration.width as u64),
        "px #",
        &u64_text(illustration.height as u64),
        "px](",
    );
    markup.append(url);
    markup.append(")");
    markup
}

/// The lines of a document as Markdown, with the picture at an address.
pub open spec fn markdown_lines(document: Document, url: Option<Seq<char>>) -> Seq<Seq<char>> {
    let head = seq!["# "@ + escaped(document.title)];
    let picture = match (document.illustration, url) {
        (Some(picture), Some(url)) => seq![image_markup(picture, url)],
        _ => Seq::empty(),
    };
    let fields = document.fields.map_values(
        |field: (Seq<char>, Seq<char>)|
            "- **"@ + escaped(field.0) + "**："@ + escaped(field.1),
    );
    let commands = if document.commands.len() > 0 {
        seq!["---"@, "## 可用命令"@] + prefixed("- "@, escaped_all(document.commands))
    } else {
        Seq::empty()
    };
    let notice = match document.notice {
        Some(notice) => seq!["> "@ + escaped(notice)],
        None => Seq::empty(),
    };
    head + picture + escaped_all(document.lines) + fields + commands + notice
}

/// The contents of an optional string slice.
pub open spec fn optional_str(value: Option<&str>) -> Option<Seq<char>> {
    match value {
        Some(value) => Some(value@),
        None => None,
    }
}

/// A document as Markdown.
pub fn render_markdown(document: &GameDocument, illustration_url: Option<&str>) -> (output: String)
    ensures
        output@ == text::joined(
            markdown_lines(document@, optional_str(illustration_url)),
            "\n"@,
        ),
{
    let mut output: Vec<String> = Vec::new();
    assert(text::texts(output@) =~= Seq::empty());
    push_text(&mut output, cat2("# ", &escape_markdown(&document.title)));
    let ghost before = seq!["# "@ + escaped(document@.title)];
    assert(text::texts(output@) =~= before);
    match (&document.illustration, illustration_url) {
        (Some(illustration), Some(url)) => {
            push_text(&mut output, markdown_image(illustration, url));
            assert(text::texts(output@) =~= before + seq![image_markup(illustration@, url@)]);
        },
        _ => {
            assert(text::texts(output@) =~= before + Seq::<Seq<char>>::empty());
        },
    }
    push_all(&mut output, &escape_all(&document.lines));
    let ghost before = text::texts(output@);
    let ghost fields = document@.fields.map_values(
        |field: (Seq<char>, Seq<char>)|
            "- **"@ + escaped(field.0) + "**："@ + escaped(field.1),
    );
    let mut i: usize = 0;
    assert(before + fields.take(0) =~= before);
    while i < document.fields.len()
        invariant
            i <= document.fields@.len(),
            fields == document@.fields.map_values(
                |field: (Seq<char>, Seq<char>)|
                    "- **"@ + escaped(field.0) + "**："@ + escaped(field.1),
            ),
            text::texts(output@) == before + fields.take(i as int),
        decreases document.fields@.len() - i,
    {
        let label = escape_markdown(&document.fields[i].0);
        let value = escape_markdown(&document.fields[i].1);
        push_text(&mut output, cat4("- **", &label, "**：", &value));
        i = i + 1;
        assert(document@.fields[i - 1] == (document.fields@[i - 1].0@, document.fields@[i - 1].1@));
        assert(fields.take(i as int) =~= fields.take(i - 1).push(fields[i - 1]));
        assert((before + fields.take(i - 1)).push(fields[i - 1]) =~= before + fields.take(i as int));
    }
    assert(fields.take(fields.len() as int) =~= fields);
    let ghost before = text::texts(output@);
    if document.commands.len() > 0 {
        push_text(&mut output, "---".to_owned());
        push_text(&mut output, "## 可用命令".to_owned());
        push_prefixed(&mut output, "- ", &escape_all(&document.commands));
        assert(text::texts(output@) =~= before + (seq!["---"@, "## 可用命令"@] + prefixed(
            "- "@,
            escaped_all(document@.commands),
        )));
    } else {
        assert(text::texts(output@) =~= before + Seq::<Seq<char>>::empty());
    }
    let ghost before = text::texts(output@);
    match &document.notice {
        Some(notice) => {
            push_text(&mut output, cat2("> ", &escape_markdown(notice)));
            assert(text::texts(output@) =~= before + seq!["> "@ + escaped(notice@)]);
        },
        None => {
            assert(text::texts(output@) =~= before + Seq::<Seq<char>>::empty());
        },
    }
    join(&output, "\n")
}

/// The chat protocols that the plugin answers.
#[derive(Clone, Copy, Debug, PartialEq, Eq, Structural)]
pub enum Protocol {
    OneBot11,
    QqOfficial,
}

/// The name of a protocol.
pub open spec fn protocol_name(protocol: Protocol) -> Seq<char> {
    match protocol {
        Protocol::OneBot11 => "onebot11"@,
        Protocol::QqOfficial => "qq-official"@,
    }
}

impl Protocol {
    pub fn as_str(self) -> (name: &'static str)
        ensures
            name@ == protocol_name(self),
    {
        match self {
            Protocol::OneBot11 => "onebot11",
            Protocol::QqOfficial => "qq-official",
        }
    }
}

/// An event with a payload of the official QQ adapter came from there; any other
/// text is taken for OneBot.
pub open spec fn protocol_of(raw_event: Seq<char>) -> Protocol {
    if outside::json_at(raw_event, "/qqbot_payload"@) is Some {
        Protocol::QqOfficial
    } else {
        Protocol::OneBot11
    }
}

/// The protocol that an event came by.
pub fn detect_protocol(raw_event_json: &str) -> (protocol: Protocol)
    ensures
        protocol == protocol_of(raw_event_json@),
{
    match json_lookup(raw_event_json, "/qqbot_payload") {
        Some(_) => Protocol::QqOfficial,
        None => Protocol::OneBot11,
    }
}

/// What a message carries of an illustration.
pub(crate) enum ResolvedIllustration<'a> {
    Url(String),
    InlineImage(&'a Vec<u8>),
}

/// The mathematical form of a resolved illustration.
pub enum Resolved {
    Url(Seq<char>),
    InlineImage(Seq<u8>),
}

pub(crate) open spec fn resolved_view(resolved: Option<ResolvedIllustration>) -> Option<Resolved> {
    match resolved {
        Some(ResolvedIllustration::Url(url)) => Some(Resolved::Url(url@)),
        Some(ResolvedIllustration::InlineImage(bytes)) => Some(Resolved::InlineImage(bytes@)),
        None => None,
    }
}

/// What a message carries of a picture: nothing unless illustrations are enabled
/// and the picture's source fits the configured mode.
pub open spec fn resolution(picture: Picture, config: IllustrationConfig) -> Option<Resolved> {
    if !config.enabled {
        None
    } else {
        match (picture.source, config.mode) {
            (Source::DirectHttps(url), IllustrationMode::Direct) => Some(Resolved::Url(url)),
            (Source::RemoteAsset(key), IllustrationMode::Remote) => match config::asset_url(
                config.remote_base_url@,
                key,
            ) {
                Some(url) => Some(Resolved::Url(url)),
                None => None,
            },
            (Source::InlineImage(bytes), IllustrationMode::Direct) => Some(
                Resolved::InlineImage(bytes),
            ),
            _ => None,
        }
    }
}

impl Illustration {
    fn resolve<'a>(&'a self, config: &IllustrationConfig) -> (resolved: Option<
        ResolvedIllustration<'a>,
    >)
        ensures
            resolved_view(resolved) == resolution(self@, *config),
    {
        if !config.enabled {
            return None;
        }
        match (&self.source, config.mode) {
            (IllustrationSource::DirectHttps(url), IllustrationMode::Direct) => Some(
                ResolvedIllustration::Url(url.clone()),
            ),
            (IllustrationSource::RemoteAsset(key), IllustrationMode::Remote) => {
                match config.remote_asset_url(key) {
                    Some(url) => Some(ResolvedIllustration::Url(url)),
                    None => None,
                }
            },
            (IllustrationSource::InlineImage(bytes), IllustrationMode::Direct) => Some(
                ResolvedIllustration::InlineImage(bytes),
            ),
            _ => None,
        }
    }
}

/// One message segment: its kind, and a text under a field of its data.
pub open spec fn segment(kind: Seq<char>, field: Seq<char>, value: Seq<char>) -> Seq<char> {
    "{\"data\":{\""@ + field + "\":"@ + outside::json_string(value) + "},\"type\":\""@ + kind
        + "\"}"@
}

pub(crate) fn segment_json(kind: &str, field: &str, value: &str) -> (json: String)
    ensures
        json@ == segment(kind@, field@, value@),
{
    let mut json = cat5("{\"data\":{\"", field, "\":", &json_quote(value), "},\"type\":\"");
    json.append(kind);
    json.append("\"}");
    json
}

/// A Base64 file source.
pub open spec fn inline_source(bytes: Seq<u8>) -> Seq<char> {
    "base64://"@ + outside::base64_standard(bytes)
}

fn inline_file(bytes: &[u8]) -> (source: String)
    requires
        bytes@.len() <= 0x4000_0000,
    ensures
        source@ == inline_source(bytes@),
{
    cat2("base64://", &base64_encode(bytes))
}

/// A Markdown answer.
pub open spec fn markdown_reply(document: Document, url: Option<Seq<char>>) -> Reply {
    Reply::Rich(
        "["@ + segment(
            "markdown"@,
            "content"@,
            text::joined(markdown_lines(document, url), "\n"@),
        ) + "]"@,
    )
}

fn markdown_response(document: &GameDocument, illustration_url: Option<&str>) -> (response:
    CommandResponse)
    ensures
        response@ == markdown_reply(document@, optional_str(illustration_url)),
{
    let content = render_markdown(document, illustration_url);
    CommandResponse::Rich(cat3("[", &segment_json("markdown", "content", &content), "]"))
}

/// A plain text answer.
pub open spec fn text_reply(document: Document) -> Reply {
    Reply::Text(text::joined(text_lines(document), "\n"@))
}

/// Where a picture is fetched from.
pub open spec fn picture_source(picture: Resolved) -> Seq<char> {
    match picture {
        Resolved::Url(url) => url,
        Resolved::InlineImage(bytes) => inline_source(bytes),
    }
}

/// A OneBot answer: the whole text, then the picture.
pub open spec fn illustrated_reply(document: Document, markdown: bool, picture: Resolved) -> Reply {
    let body = if markdown {
        segment("markdown"@, "content"@, text::joined(markdown_lines(document, None), "\n"@))
    } else {
        segment("text"@, "text"@, text::joined(text_lines(document), "\n"@))
    };
    Reply::Rich("["@ + body + ","@ + segment("image"@, "file"@, picture_source(picture)) + "]"@)
}

fn onebot_illustrated_response(
    document: &GameDocument,
    markdown: bool,
    illustration: &ResolvedIllustration<'_>,
) -> (response: CommandResponse)
    requires
        match *illustration {
            ResolvedIllustration::InlineImage(bytes) => bytes@.len() <= 0x4000_0000,
            _ => true,
        },
    ensures
        resolved_view(Some(*illustration)) matches Some(picture) && response@ == illustrated_reply(
            document@,
            markdown,
            picture,
        ),
{
    let source = match illustration {
        ResolvedIllustration::Url(url) => url.clone(),
        ResolvedIllustration::InlineImage(bytes) => inline_file(bytes.as_slice()),
    };
    let body = if markdown {
        segment_json("markdown", "content", &render_markdown(document, None))
    } else {
        segment_json("text", "text", &render_text(document))
    };
    CommandResponse::Rich(
        cat5("[", &body, ",", &segment_json("image", "file", &source), "]"),
    )
}

/// The answer to a command by each protocol. The official QQ adapter never gets an
/// inline picture: a local picture there goes out as a message of its own.
pub open spec fn reply(
    protocol: Protocol,
    document: Document,
    messages: MessageConfig,
    illustrations: IllustrationConfig,
) -> Reply {
    let picture = match document.illustration {
        Some(picture) => resolution(picture, illustrations),
        None => None,
    };
    match protocol {
        Protocol::QqOfficial => if messages.qq_official_markdown {
            markdown_reply(
                document,
                match picture {
                    Some(Resolved::Url(url)) => Some(url),
                    _ => None,
                },
            )
        } else {
            text_reply(document)
        },
        Protocol::OneBot11 => match picture {
            Some(picture) => illustrated_reply(document, messages.onebot_markdown, picture),
            None => if messages.onebot_markdown {
                markdown_reply(document, None)
            } else {
                text_reply(document)
            },
        },
    }
}

/// Renders a document for a protocol.
pub fn response_by_protocol(
    protocol: Protocol,
    document: &GameDocument,
    messages: &MessageConfig,
    illustrations: &IllustrationConfig,
) -> (response: CommandResponse)
    ensures
        response@ == reply(protocol, document@, *messages, *illustrations),
{
    let resolved = match &document.illustration {
        Some(illustration) => {
            proof {
                use_type_invariant(illustration);
            }
            illustration.resolve(illustrations)
        },
        None => None,
    };
    match protocol {
        Protocol::QqOfficial => {
            if messages.qq_official_markdown {
                match &resolved {
                    Some(ResolvedIllustration::Url(url)) => markdown_response(
                        document,
                        Some(url.as_str()),
                    ),
                    _ => markdown_response(document, None),
                }
            } else {
                CommandResponse::Text(render_text(document))
            }
        },
        Protocol::OneBot11 => match &resolved {
            Some(illustration) => onebot_illustrated_response(
                document,
                messages.onebot_markdown,
                illustration,
            ),
            None => {
                if messages.onebot_markdown {
                    markdown_response(document, None)
                } else {
                    CommandResponse::Text(render_text(document))
                }
            },
        },
    }
}

/// Renders a document as the answer to a command.
pub fn response_for(
    req: &CommandRequest,
    document: &GameDocument,
    messages: &MessageConfig,
    illustrations: &IllustrationConfig,
) -> (response: CommandResponse)
    ensures
        response@ == reply(
            protocol_of(req.raw_event_json@),
            document@,
            *messages,
            *illustrations,
        ),
{
    response_by_protocol(detect_protocol(&req.raw_event_json), document, messages, illustrations)
}

/// The local picture that goes out on its own behind an official QQ reply.
pub open spec fn separate_picture(
    document: Document,
    illustrations: IllustrationConfig,
) -> Option<Seq<u8>> {
    match document.illustration {
        Some(picture) => match resolution(picture, illustrations) {
            Some(Resolved::InlineImage(bytes)) => Some(bytes),
            _ => None,
        },
        None => None,
    }
}

/// The local picture of a document, where the configuration sends one.
pub fn qq_official_direct_inline_image(
    document: &GameDocument,
    illustrations: &IllustrationConfig,
) -> (bytes: Option<Vec<u8>>)
    ensures
        match bytes {
            Some(bytes) => separate_picture(document@, *illustrations) == Some(bytes@) && bytes_error(
                bytes@,
            ) is None,
            None => separate_picture(document@, *illustrations) is None,
        },
{
    match &document.illustration {
        Some(illustration) => {
            proof {
                use_type_invariant(illustration);
            }
            match illustration.resolve(illustrations) {
                Some(ResolvedIllustration::InlineImage(bytes)) => Some(
                    vstd::slice::slice_to_vec(bytes.as_slice()),
                ),
                _ => None,
            }
        },
        None => None,
    }
}

/// The segments of a message that is only a picture.
pub fn qq_official_inline_image_segments(bytes: &[u8]) -> (segments: String)
    requires
        bytes@.len() <= 0x4000_0000,
    ensures
        segments@ == "["@ + segment("image"@, "file"@, inline_source(bytes@)) + "]"@,
{
    cat3("[", &segment_json("image", "file", &inline_file(bytes)), "]")
}

/// A reply to the official QQ adapter is the same with an inline picture as
/// without one: the whole text, and no byte of the picture.
pub proof fn official_replies_leave_inline_pictures_out(
    document: Document,
    messages: MessageConfig,
    illustrations: IllustrationConfig,
)
    requires
        document.illustration matches Some(picture) && picture.source is InlineImage,
    ensures
        reply(Protocol::QqOfficial, document, messages, illustrations) == reply(
            Protocol::QqOfficial,
            (Document { illustration: None, ..document }),
            messages,
            illustrations,
        ),
{
    let plain = Document { illustration: None, ..document };
    assert(markdown_lines(document, None) =~= markdown_lines(plain, None));
    assert(text_lines(document) =~= text_lines(plain));
}

/// With illustrations switched off, a reply is the same with a picture as without.
pub proof fn disabled_illustrations_change_nothing(
    protocol: Protocol,
    document: Document,
    messages: MessageConfig,
    illustrations: IllustrationConfig,
)
    requires
        !illustrations.enabled,
    ensures
        reply(protocol, document, messages, illustrations) == reply(
            protocol,
            (Document { illustration: None, ..document }),
            messages,
            illustrations,
        ),
{
    let plain = Document { illustration: None, ..document };
    assert(markdown_lines(document, None) =~= markdown_lines(plain, None));
    assert(text_lines(document) =~= text_lines(plain));
}

/// The segments of an answer.
pub open spec fn segments_of(reply: Reply) -> Seq<char> {
    match reply {
        Reply::Ignore => "[]"@,
        Reply::Text(content) => "["@ + segment("text"@, "text"@, content) + "]"@,
        Reply::Rich(segments) => segments,
    }
}

/// A picture never takes the place of the text: a OneBot reply with a picture holds the
/// segments of the reply without it, and behind them the picture.
pub proof fn pictures_stand_behind_the_whole_text(
    document: Document,
    messages: MessageConfig,
    illustrations: IllustrationConfig,
    picture: Resolved,
)
    requires
        document.illustration matches Some(illustration) && resolution(illustration, illustrations)
            == Some(picture),
    ensures
        reply(Protocol::OneBot11, document, messages, illustrations) == Reply::Rich(
            segments_of(
                reply(
                    Protocol::OneBot11,
                    (Document { illustration: None, ..document }),
                    messages,
                    illustrations,
                ),
            ).drop_last() + ","@ + segment("image"@, "file"@, picture_source(picture)) + "]"@,
        ),
{
    reveal_strlit("]");
    let plain = Document { illustration: None, ..document };
    assert(markdown_lines(document, None) =~= markdown_lines(plain, None));
    assert(text_lines(document) =~= text_lines(plain));
    let body = if messages.onebot_markdown {
        segment("markdown"@, "content"@, text::joined(markdown_lines(document, None), "\n"@))
    } else {
        segment("text"@, "text"@, text::joined(text_lines(document), "\n"@))
    };
    assert(("["@ + body + "]"@).drop_last() =~= "["@ + body);
}

} // verus!
