//! The game service: what a command asks of the store, and the pictures of a reply.
//!
//! Each command has two halves. The first reads its arguments and works out whose
//! data it is about and what is logged with it; the store then does its work. The
//! second puts what the store hands back into a document.
use crate::assets::IllustrationAssets;
use crate::catalog;
use crate::checkin;
use crate::checkin::{game_day_from_timestamp, CHECKIN_CURRENCY_CODE};
use crate::config;
use crate::config::{
    AuthorizationMode, IllustrationConfig, IllustrationMode, MessageConfig, PluginConfig,
};
use crate::context;
use crate::context::resolve_conversation_context;
use crate::event;
use crate::game_args;
use crate::game_args::{
    parse_context_cursor, parse_direction_arg, parse_gift_args, parse_grant_context_args,
    parse_ground_drop_id, parse_item_quantity, parse_legacy_claim_args, parse_legacy_inspect_args,
    parse_map_page, parse_optional_log_limit, parse_optional_map_name, parse_optional_quest_name,
    parse_registration_args, parse_required_catalog_name, parse_revoke_context_args,
    parse_shop_args, parse_single_page, parse_transfer_args, validate_context_kind_for_protocol,
};
use crate::host::CommandRequest;
use crate::identity;
use crate::identity::{resolve_identity, resolve_protocol, ResolvedIdentity};
use crate::menu;
use crate::menu::{menu_document, parse_menu_page};
use crate::message;
use crate::message::{GameDocument, Illustration, Picture, Protocol, Source};
use crate::outside;
use crate::outside::json_quote;
use crate::text;
use crate::text::{blank, cat3, cat5, cat7, same, usize_text};
use vstd::prelude::*;
use vstd::string::*;

verus! {

/// How many maps a page shows.
pub const MAP_PAGE_SIZE: usize = 5;

/// How many entries any other page shows.
pub const PAGE_SIZE: usize = 8;

/// How many conversations a page shows.
pub const CONTEXT_PAGE_SIZE: usize = 10;

/// What is said to a player who does not exist yet.
pub const NO_PLAYER: &'static str = "你还没有角色，请先使用“开始穿越 角色名 性别”";

/// Whose data a command is about.
#[derive(Clone, Debug, PartialEq, Eq)]
pub struct IdentityKey {
    pub protocol: Protocol,
    pub account_id: String,
    pub namespace: String,
    pub subject_kind: &'static str,
    pub subject_id: String,
}

/// The mathematical form of a key.
pub struct Scope {
    pub protocol: Protocol,
    pub account_id: Seq<char>,
    pub namespace: Seq<char>,
    pub subject_kind: Seq<char>,
    pub subject_id: Seq<char>,
}

impl View for IdentityKey {
    type V = Scope;

    open spec fn view(&self) -> Scope {
        Scope {
            protocol: self.protocol,
            account_id: self.account_id@,
            namespace: self.namespace@,
            subject_kind: self.subject_kind@,
            subject_id: self.subject_id@,
        }
    }
}

/// What is logged with a command.
#[derive(Clone, Debug, PartialEq, Eq)]
pub struct OperationLogInput {
    pub command: String,
    pub outcome: String,
    pub source_message_id: String,
    pub details_json: String,
}

/// The mathematical form of a log entry.
pub struct LogEntry {
    pub command: Seq<char>,
    pub outcome: Seq<char>,
    pub source_message_id: Seq<char>,
    pub details_json: Seq<char>,
}

impl View for OperationLogInput {
    type V = LogEntry;

    open spec fn view(&self) -> LogEntry {
        LogEntry {
            command: self.command@,
            outcome: self.outcome@,
            source_message_id: self.source_message_id@,
            details_json: self.details_json@,
        }
    }
}

/// Whose data a write changes, and what is logged with it.
#[derive(Clone, Debug, PartialEq, Eq)]
pub struct Mutation {
    pub key: IdentityKey,
    pub operation: OperationLogInput,
}

impl View for Mutation {
    type V = (Scope, LogEntry);

    open spec fn view(&self) -> (Scope, LogEntry) {
        (self.key@, self.operation@)
    }
}

/// The scope of a player. The same player is meant in groups and in private.
pub open spec fn scope(identity: identity::Identity, namespace: Seq<char>, subject: Seq<char>) -> Scope {
    Scope {
        protocol: identity.protocol,
        account_id: identity.account_id,
        namespace,
        subject_kind: "user"@,
        subject_id: subject,
    }
}

/// The identity of the sender of a request.
pub open spec fn sender(req: CommandRequest, config: PluginConfig) -> Result<
    identity::Identity,
    Seq<char>,
> {
    identity::identity(
        req.sender_id@,
        identity::identity_facts(req.raw_event_json@),
        config.identity.qq_official_account_id@,
    )
}

/// The conversation of a request.
pub open spec fn conversation(req: CommandRequest, protocol: Protocol) -> Result<
    context::Conversation,
    Seq<char>,
> {
    match protocol {
        Protocol::OneBot11 => context::onebot_conversation(req.group_id@),
        Protocol::QqOfficial => context::qq_conversation(event::qq_facts(req.raw_event_json@)),
    }
}

/// The kind of conversation that is logged.
pub open spec fn logged_kind(req: CommandRequest, protocol: Protocol) -> Seq<char> {
    match conversation(req, protocol) {
        Ok(conversation) => context::kind_of(conversation),
        Err(_) => "system"@,
    }
}

fn kind_for_log(req: &CommandRequest, protocol: Protocol) -> (kind: &'static str)
    ensures
        kind@ == logged_kind(*req, protocol),
{
    match resolve_conversation_context(req, protocol) {
        Ok(context) => context.audit_kind(),
        Err(_) => "system",
    }
}

/// The JSON word of a truth value.
pub open spec fn json_bool(value: bool) -> Seq<char> {
    if value {
        "true"@
    } else {
        "false"@
    }
}

/// The details that are logged with a command: the kind of conversation, and whether
/// there were arguments, but not the arguments themselves.
pub open spec fn details(req: CommandRequest, protocol: Protocol) -> Seq<char> {
    "{\"context\":"@ + outside::json_string(logged_kind(req, protocol)) + ",\"has_args\":"@
        + json_bool(!text::is_blank(req.args@)) + "}"@
}

/// The details that are logged with a command.
pub fn operation_details(req: &CommandRequest, protocol: Protocol) -> (json: String)
    ensures
        json@ == details(*req, protocol),
{
    let has_args = if blank(&req.args) {
        "false"
    } else {
        "true"
    };
    cat5(
        "{\"context\":",
        &json_quote(kind_for_log(req, protocol)),
        ",\"has_args\":",
        has_args,
        "}",
    )
}

/// The details that are logged when an authorisation changes: also its target.
pub open spec fn context_details(
    req: CommandRequest,
    protocol: Protocol,
    kind: Seq<char>,
    id: Seq<char>,
) -> Seq<char> {
    "{\"context\":"@ + outside::json_string(logged_kind(req, protocol)) + ",\"has_args\":"@
        + json_bool(!text::is_blank(req.args@)) + ",\"target_id\":"@ + outside::json_string(id)
        + ",\"target_kind\":"@ + outside::json_string(kind) + "}"@
}

/// The details that are logged when an authorisation changes.
pub fn context_operation_details(req: &CommandRequest, protocol: Protocol, kind: &str, id: &str) -> (json:
    String)
    ensures
        json@ == context_details(*req, protocol, kind@, id@),
{
    let has_args = if blank(&req.args) {
        "false"
    } else {
        "true"
    };
    let head = cat7(
        "{\"context\":",
        &json_quote(kind_for_log(req, protocol)),
        ",\"has_args\":",
        has_args,
        ",\"target_id\":",
        &json_quote(id),
        ",\"target_kind\":",
    );
    cat3(&head, &json_quote(kind), "}")
}

/// The log entry of a command that succeeded.
pub open spec fn success(req: CommandRequest, details_json: Seq<char>) -> LogEntry {
    LogEntry {
        command: req.command_name@,
        outcome: "ok"@,
        source_message_id: req.message_id@,
        details_json,
    }
}

/// The log entry of a command that succeeded.
pub fn successful_operation(req: &CommandRequest, details_json: String) -> (operation:
    OperationLogInput)
    ensures
        operation@ == success(*req, details_json@),
{
    OperationLogInput {
        command: req.command_name.as_str().to_owned(),
        outcome: "ok".to_owned(),
        source_message_id: req.message_id.as_str().to_owned(),
        details_json,
    }
}

/// Whose data a reading command is about: the sender's.
pub open spec fn own_scope(req: CommandRequest, config: PluginConfig) -> Result<Scope, Seq<char>> {
    match sender(req, config) {
        Ok(identity) => Ok(scope(identity, config.identity.namespace@, identity.subject_id)),
        Err(message) => Err(message),
    }
}

/// Whose data a writing command changes, and what is logged with it.
pub open spec fn own_mutation(req: CommandRequest, config: PluginConfig) -> Result<
    (Scope, LogEntry),
    Seq<char>,
> {
    match sender(req, config) {
        Ok(identity) => Ok(
            (
                scope(identity, config.identity.namespace@, identity.subject_id),
                success(req, details(req, identity.protocol)),
            ),
        ),
        Err(message) => Err(message),
    }
}

/// The first of two errors.
pub open spec fn first_error<A, B>(
    first: Result<A, Seq<char>>,
    second: Result<B, Seq<char>>,
) -> Option<Seq<char>> {
    match first {
        Err(message) => Some(message),
        Ok(_) => match second {
            Err(message) => Some(message),
            Ok(_) => None,
        },
    }
}

/// A command that takes no arguments.
pub open spec fn no_arguments(args: Seq<char>, usage: Seq<char>) -> Result<(), Seq<char>> {
    if text::is_blank(args) {
        Ok(())
    } else {
        Err(usage)
    }
}

fn parse_nothing(args: &str, usage: &str) -> (result: Result<(), String>)
    ensures
        text::outcome(result) == no_arguments(args@, usage@),
{
    if blank(args) {
        Ok(())
    } else {
        Err(usage.to_owned())
    }
}

/// The name and the gender of a new player, checked.
pub open spec fn new_player(args: Seq<char>, config: PluginConfig) -> Result<
    (Seq<char>, Seq<char>),
    Seq<char>,
> {
    match game_args::registration(args, config.messages.legacy_hyphen_arguments) {
        Err(message) => Err(message),
        Ok((name, gender)) => if !(2 <= name.len() <= config.identity.max_character_name_chars) {
            Err(
                "角色名长度必须在 2 到 "@ + text::decimal(
                    config.identity.max_character_name_chars as nat,
                ) + " 个字符之间"@,
            )
        } else if gender != "男"@ && gender != "女"@ {
            Err("性别只能填写“男”或“女”"@)
        } else {
            Ok((name, gender))
        },
    }
}

/// What a picture comes from, where it can be shown.
pub open spec fn shown(result: Result<Picture, Seq<char>>) -> Option<Picture> {
    match result {
        Ok(picture) => Some(picture),
        Err(_) => None,
    }
}

/// The picture of a catalogue entry that was read from the data directory.
pub open spec fn local_picture(
    binding: catalog::Binding,
    assets: Map<Seq<char>, Seq<u8>>,
) -> Option<Picture> {
    if assets.contains_key(binding.asset_key) {
        shown(
            message::checked(
                message::metadata_error(
                    binding.alt,
                    binding.display.width,
                    binding.display.height,
                ),
                message::bytes_error(assets[binding.asset_key]),
                Picture {
                    alt: binding.alt,
                    source: Source::InlineImage(assets[binding.asset_key]),
                    width: binding.display.width,
                    height: binding.display.height,
                },
            ),
        )
    } else {
        None
    }
}

/// The picture of a catalogue entry that has an address of its own.
pub open spec fn addressed_picture(binding: catalog::Binding) -> Option<Picture> {
    match binding.direct_url {
        Some(url) => shown(
            message::checked(
                message::url_error(url),
                message::metadata_error(
                    binding.alt,
                    binding.display.width,
                    binding.display.height,
                ),
                Picture {
                    alt: binding.alt,
                    source: Source::DirectHttps(url),
                    width: binding.display.width,
                    height: binding.display.height,
                },
            ),
        ),
        None => None,
    }
}

/// The picture of a catalogue entry that the media service holds.
pub open spec fn remote_picture(binding: catalog::Binding) -> Option<Picture> {
    shown(
        message::checked(
            message::metadata_error(binding.alt, binding.display.width, binding.display.height),
            message::key_error(binding.asset_key),
            Picture {
                alt: binding.alt,
                source: Source::RemoteAsset(binding.asset_key),
                width: binding.display.width,
                height: binding.display.height,
            },
        ),
    )
}

/// The picture of a thing: in direct mode the one that was read, else the one that
/// has an address; in remote mode the one of the media service.
pub open spec fn asset_picture(
    mode: IllustrationMode,
    assets: Map<Seq<char>, Seq<u8>>,
    entity_type: Seq<char>,
    entity_key: Seq<char>,
    media_role: Seq<char>,
) -> Option<Picture> {
    match catalog::embedded_binding(entity_type, entity_key, media_role) {
        None => None,
        Some(binding) => match mode {
            IllustrationMode::Direct => match local_picture(binding, assets) {
                Some(picture) => Some(picture),
                None => addressed_picture(binding),
            },
            IllustrationMode::Remote => remote_picture(binding),
        },
    }
}

/// The part of the game that knows the configuration and the pictures.
pub struct GameService {
    config: PluginConfig,
    illustration_assets: IllustrationAssets,
}

impl GameService {
    /// The configuration of the service.
    pub closed spec fn config(self) -> PluginConfig {
        self.config
    }

    /// The pictures of the service.
    pub closed spec fn assets(self) -> Map<Seq<char>, Seq<u8>> {
        self.illustration_assets@
    }

    /// The picture of a thing.
    pub open spec fn picture(
        self,
        entity_type: Seq<char>,
        entity_key: Seq<char>,
        media_role: Seq<char>,
    ) -> Option<Picture> {
        asset_picture(
            self.config().illustrations.mode,
            self.assets(),
            entity_type,
            entity_key,
            media_role,
        )
    }

    /// A service with a configuration and pictures.
    pub fn with_assets(config: PluginConfig, illustration_assets: IllustrationAssets) -> (service:
        Self)
        ensures
            service.config() == config,
            service.assets() == illustration_assets@,
    {
        GameService { config, illustration_assets }
    }

    pub fn message_config(&self) -> (config: &MessageConfig)
        ensures
            *config == self.config().messages,
    {
        &self.config.messages
    }

    pub fn illustration_config(&self) -> (config: &IllustrationConfig)
        ensures
            *config == self.config().illustrations,
    {
        &self.config.illustrations
    }

    /// The picture of a thing.
    pub fn asset_illustration(&self, entity_type: &str, entity_key: &str, media_role: &str) -> (picture:
        Option<Illustration>)
        ensures
            message::optional_picture(picture) == self.picture(
                entity_type@,
                entity_key@,
                media_role@,
            ),
    {
        let binding = match catalog::binding(entity_type, entity_key, media_role) {
            Some(binding) => binding,
            None => return None,
        };
        let width = binding.display.width;
        let height = binding.display.height;
        match self.config.illustrations.mode {
            IllustrationMode::Direct => {
                match self.illustration_assets.get(&binding.asset_key) {
                    Some(bytes) => {
                        match Illustration::inline_image_bytes(&binding.alt, bytes, width, height) {
                            Ok(picture) => return Some(picture),
                            Err(_) => {},
                        }
                    },
                    None => {},
                }
                match &binding.direct_url {
                    Some(url) => match Illustration::https(&binding.alt, url, width, height) {
                        Ok(picture) => Some(picture),
                        Err(_) => None,
                    },
                    None => None,
                }
            },
            IllustrationMode::Remote => {
                match Illustration::remote_asset(&binding.alt, &binding.asset_key, width, height) {
                    Ok(picture) => Some(picture),
                    Err(_) => None,
                }
            },
        }
    }

    /// The picture of a martial soul.
    pub fn wuhun_illustration(&self, name: &str) -> (picture: Option<Illustration>)
        ensures
            message::optional_picture(picture) == self.picture("wuhun"@, name@, "portrait"@),
    {
        self.asset_illustration("wuhun", name, "portrait")
    }

    /// A page of the menu. Only the first has a picture.
    pub fn menu(&self, args: &str) -> (result: Result<GameDocument, String>)
        ensures
            match menu::menu_page(args@) {
                Ok(page) => result matches Ok(document) && document@ == menu::menu(
                    page as int,
                    if page == 0 {
                        self.picture("map"@, "圣魂村"@, "cover"@)
                    } else {
                        None
                    },
                ),
                Err(message) => result matches Err(reason) && reason@ == message,
            },
    {
        let page = match parse_menu_page(args) {
            Ok(page) => page,
            Err(message) => return Err(message),
        };
        let picture = if page == 0 {
            self.asset_illustration("map", "圣魂村", "cover")
        } else {
            None
        };
        Ok(menu_document(page, picture))
    }

    fn identity_key(&self, identity: &ResolvedIdentity, subject_id: &str) -> (key: IdentityKey)
        ensures
            key@ == scope(identity@, self.config().identity.namespace@, subject_id@),
    {
        IdentityKey {
            protocol: identity.protocol,
            account_id: identity.account_id.as_str().to_owned(),
            namespace: self.config.identity.namespace.as_str().to_owned(),
            subject_kind: "user",
            subject_id: subject_id.to_owned(),
        }
    }

    fn own_key(&self, req: &CommandRequest) -> (result: Result<IdentityKey, String>)
        ensures
            text::outcome(result) == own_scope(*req, self.config()),
    {
        match resolve_identity(req, &self.config.identity) {
            Ok(identity) => Ok(self.identity_key(&identity, &identity.subject_id)),
            Err(message) => Err(message),
        }
    }

    fn mutation_by(&self, req: &CommandRequest, identity: &ResolvedIdentity) -> (mutation: Mutation)
        ensures
            mutation@ == (
                scope(
                    identity@,
                    self.config().identity.namespace@,
                    identity@.subject_id,
                ),
                success(*req, details(*req, identity@.protocol)),
            ),
    {
        let details_json = operation_details(req, identity.protocol);
        Mutation {
            key: self.identity_key(identity, &identity.subject_id),
            operation: successful_operation(req, details_json),
        }
    }

    fn mutation(&self, req: &CommandRequest) -> (result: Result<Mutation, String>)
        ensures
            text::outcome(result) == own_mutation(*req, self.config()),
    {
        match resolve_identity(req, &self.config.identity) {
            Ok(identity) => Ok(self.mutation_by(req, &identity)),
            Err(message) => Err(message),
        }
    }

    fn read<A>(&self, args: Result<A, String>, req: &CommandRequest) -> (result: Result<
        (A, IdentityKey),
        String,
    >)
        ensures
            match result {
                Ok((value, key)) => args == Ok::<A, String>(value) && own_scope(
                    *req,
                    self.config(),
                ) == Ok::<Scope, Seq<char>>(key@),
                Err(message) => match args {
                    Ok(_) => own_scope(*req, self.config()) == Err::<Scope, Seq<char>>(message@),
                    Err(reason) => reason@ == message@,
                },
            },
    {
        match args {
            Err(message) => Err(message),
            Ok(value) => match self.own_key(req) {
                Ok(key) => Ok((value, key)),
                Err(message) => Err(message),
            },
        }
    }

    fn write<A>(&self, args: Result<A, String>, req: &CommandRequest) -> (result: Result<
        (A, Mutation),
        String,
    >)
        ensures
            match result {
                Ok((value, mutation)) => args == Ok::<A, String>(value) && own_mutation(
                    *req,
                    self.config(),
                ) == Ok::<(Scope, LogEntry), Seq<char>>(mutation@),
                Err(message) => match args {
                    Ok(_) => own_mutation(*req, self.config()) == Err::<
                        (Scope, LogEntry),
                        Seq<char>,
                    >(message@),
                    Err(reason) => reason@ == message@,
                },
            },
    {
        match args {
            Err(message) => Err(message),
            Ok(value) => match self.mutation(req) {
                Ok(mutation) => Ok((value, mutation)),
                Err(message) => Err(message),
            },
        }
    }

    /// Reads a request for the soul skills.
    pub fn skills(&self, req: &CommandRequest) -> (result: Result<IdentityKey, String>)
        ensures
            match result {
                Ok(key) => no_arguments(req.args@, "用法：技能"@) is Ok && own_scope(*req, self.config()) == Ok::<
                    Scope,
                    Seq<char>,
                >(key@),
                Err(message) => first_error(
                    no_arguments(req.args@, "用法：技能"@),
                    own_scope(*req, self.config()),
                ) == Some(message@),
            },
    {
        match self.read(parse_nothing(&req.args, "用法：技能"), req) {
            Ok((_, key)) => Ok(key),
            Err(message) => Err(message),
        }
    }

    /// Reads a request for a soul skill.
    pub fn skill_detail(&self, req: &CommandRequest) -> (result: Result<(String, IdentityKey), String>)
        ensures
            match result {
                Ok((value, key)) => {
                    &&& game_args::catalog_name(req.args@, "技能详情 <魂技>"@) == Ok::<
                        _,
                        Seq<char>,
                    >(value@)
                    &&& own_scope(*req, self.config()) == Ok::<Scope, Seq<char>>(key@)
                },
                Err(message) => first_error(
                    game_args::catalog_name(req.args@, "技能详情 <魂技>"@),
                    own_scope(*req, self.config()),
                ) == Some(message@),
            },
    {
        self.read(parse_required_catalog_name(&req.args, "技能详情 <魂技>"), req)
    }

    /// Reads a request for the soul rings.
    pub fn soul_rings(&self, req: &CommandRequest) -> (result: Result<IdentityKey, String>)
        ensures
            match result {
                Ok(key) => no_arguments(req.args@, "用法：魂环"@) is Ok && own_scope(*req, self.config()) == Ok::<
                    Scope,
                    Seq<char>,
                >(key@),
                Err(message) => first_error(
                    no_arguments(req.args@, "用法：魂环"@),
                    own_scope(*req, self.config()),
                ) == Some(message@),
            },
    {
        match self.read(parse_nothing(&req.args, "用法：魂环"), req) {
            Ok((_, key)) => Ok(key),
            Err(message) => Err(message),
        }
    }

    /// Reads a request to absorb a soul ring.
    pub fn absorb_soul_ring(&self, req: &CommandRequest) -> (result: Result<(String, Mutation), String>)
        ensures
            match result {
                Ok((value, mutation)) => {
                    &&& game_args::catalog_name(req.args@, "吸收魂环 <魂兽>"@) == Ok::<
                        _,
                        Seq<char>,
                    >(value@)
                    &&& own_mutation(*req, self.config()) == Ok::<(Scope, LogEntry), Seq<char>>(mutation@)
                },
                Err(message) => first_error(
                    game_args::catalog_name(req.args@, "吸收魂环 <魂兽>"@),
                    own_mutation(*req, self.config()),
                ) == Some(message@),
            },
    {
        self.write(parse_required_catalog_name(&req.args, "吸收魂环 <魂兽>"), req)
    }

    /// Reads a request for the money.
    pub fn wallet(&self, req: &CommandRequest) -> (result: Result<IdentityKey, String>)
        ensures
            match result {
                Ok(key) => no_arguments(req.args@, "用法：钱包"@) is Ok && own_scope(*req, self.config()) == Ok::<
                    Scope,
                    Seq<char>,
                >(key@),
                Err(message) => first_error(
                    no_arguments(req.args@, "用法：钱包"@),
                    own_scope(*req, self.config()),
                ) == Some(message@),
            },
    {
        match self.read(parse_nothing(&req.args, "用法：钱包"), req) {
            Ok((_, key)) => Ok(key),
            Err(message) => Err(message),
        }
    }

    /// Reads a request for the characters.
    pub fn npcs(&self, req: &CommandRequest) -> (result: Result<IdentityKey, String>)
        ensures
            match result {
                Ok(key) => no_arguments(req.args@, "用法：NPC"@) is Ok && own_scope(*req, self.config()) == Ok::<
                    Scope,
                    Seq<char>,
                >(key@),
                Err(message) => first_error(
                    no_arguments(req.args@, "用法：NPC"@),
                    own_scope(*req, self.config()),
                ) == Some(message@),
            },
    {
        match self.read(parse_nothing(&req.args, "用法：NPC"), req) {
            Ok((_, key)) => Ok(key),
            Err(message) => Err(message),
        }
    }

    /// Reads a request to talk.
    pub fn talk(&self, req: &CommandRequest) -> (result: Result<(String, Mutation), String>)
        ensures
            match result {
                Ok((value, mutation)) => {
                    &&& game_args::catalog_name(req.args@, "对话 <NPC>"@) == Ok::<
                        _,
                        Seq<char>,
                    >(value@)
                    &&& own_mutation(*req, self.config()) == Ok::<(Scope, LogEntry), Seq<char>>(mutation@)
                },
                Err(message) => first_error(
                    game_args::catalog_name(req.args@, "对话 <NPC>"@),
                    own_mutation(*req, self.config()),
                ) == Some(message@),
            },
    {
        self.write(parse_required_catalog_name(&req.args, "对话 <NPC>"), req)
    }

    /// Reads a request for what is carried.
    pub fn inventory(&self, req: &CommandRequest) -> (result: Result<(usize, IdentityKey), String>)
        ensures
            match result {
                Ok((value, key)) => {
                    &&& game_args::single_page(req.args@, "背包"@) == Ok::<
                        _,
                        Seq<char>,
                    >(value)
                    &&& own_scope(*req, self.config()) == Ok::<Scope, Seq<char>>(key@)
                },
                Err(message) => first_error(
                    game_args::single_page(req.args@, "背包"@),
                    own_scope(*req, self.config()),
                ) == Some(message@),
            },
    {
        self.read(parse_single_page(&req.args, "背包"), req)
    }

    /// Reads a request for what lies on the ground.
    pub fn ground_drops(&self, req: &CommandRequest) -> (result: Result<(usize, IdentityKey), String>)
        ensures
            match result {
                Ok((value, key)) => {
                    &&& game_args::single_page(req.args@, "掉落"@) == Ok::<
                        _,
                        Seq<char>,
                    >(value)
                    &&& own_scope(*req, self.config()) == Ok::<Scope, Seq<char>>(key@)
                },
                Err(message) => first_error(
                    game_args::single_page(req.args@, "掉落"@),
                    own_scope(*req, self.config()),
                ) == Some(message@),
            },
    {
        self.read(parse_single_page(&req.args, "掉落"), req)
    }

    /// Reads a request for the quests.
    pub fn quests(&self, req: &CommandRequest) -> (result: Result<(usize, IdentityKey), String>)
        ensures
            match result {
                Ok((value, key)) => {
                    &&& game_args::single_page(req.args@, "任务"@) == Ok::<
                        _,
                        Seq<char>,
                    >(value)
                    &&& own_scope(*req, self.config()) == Ok::<Scope, Seq<char>>(key@)
                },
                Err(message) => first_error(
                    game_args::single_page(req.args@, "任务"@),
                    own_scope(*req, self.config()),
                ) == Some(message@),
            },
    {
        self.read(parse_single_page(&req.args, "任务"), req)
    }

    /// Reads a request for the soul beasts.
    pub fn soul_beasts(&self, req: &CommandRequest) -> (result: Result<(usize, IdentityKey), String>)
        ensures
            match result {
                Ok((value, key)) => {
                    &&& game_args::single_page(req.args@, "魂兽"@) == Ok::<
                        _,
                        Seq<char>,
                    >(value)
                    &&& own_scope(*req, self.config()) == Ok::<Scope, Seq<char>>(key@)
                },
                Err(message) => first_error(
                    game_args::single_page(req.args@, "魂兽"@),
                    own_scope(*req, self.config()),
                ) == Some(message@),
            },
    {
        self.read(parse_single_page(&req.args, "魂兽"), req)
    }

    /// Reads a request to pick something up.
    pub fn pick_up_ground_drop(&self, req: &CommandRequest) -> (result: Result<(i64, Mutation), String>)
        ensures
            match result {
                Ok((value, mutation)) => {
                    &&& game_args::drop_argument(req.args@) == Ok::<
                        _,
                        Seq<char>,
                    >(value as int)
                    &&& own_mutation(*req, self.config()) == Ok::<(Scope, LogEntry), Seq<char>>(mutation@)
                },
                Err(message) => first_error(
                    game_args::drop_argument(req.args@),
                    own_mutation(*req, self.config()),
                ) == Some(message@),
            },
    {
        self.write(parse_ground_drop_id(&req.args), req)
    }

    /// Reads a request to accept a quest.
    pub fn accept_quest(&self, req: &CommandRequest) -> (result: Result<(String, Mutation), String>)
        ensures
            match result {
                Ok((value, mutation)) => {
                    &&& game_args::catalog_name(req.args@, "接取任务 <任务>"@) == Ok::<
                        _,
                        Seq<char>,
                    >(value@)
                    &&& own_mutation(*req, self.config()) == Ok::<(Scope, LogEntry), Seq<char>>(mutation@)
                },
                Err(message) => first_error(
                    game_args::catalog_name(req.args@, "接取任务 <任务>"@),
                    own_mutation(*req, self.config()),
                ) == Some(message@),
            },
    {
        self.write(parse_required_catalog_name(&req.args, "接取任务 <任务>"), req)
    }

    /// Reads a request to hand in a quest.
    pub fn submit_quest(&self, req: &CommandRequest) -> (result: Result<(String, Mutation), String>)
        ensures
            match result {
                Ok((value, mutation)) => {
                    &&& game_args::catalog_name(req.args@, "提交任务 <任务>"@) == Ok::<
                        _,
                        Seq<char>,
                    >(value@)
                    &&& own_mutation(*req, self.config()) == Ok::<(Scope, LogEntry), Seq<char>>(mutation@)
                },
                Err(message) => first_error(
                    game_args::catalog_name(req.args@, "提交任务 <任务>"@),
                    own_mutation(*req, self.config()),
                ) == Some(message@),
            },
    {
        self.write(parse_required_catalog_name(&req.args, "提交任务 <任务>"), req)
    }

    /// Reads a request to give up a quest.
    pub fn abandon_quest(&self, req: &CommandRequest) -> (result: Result<(String, Mutation), String>)
        ensures
            match result {
                Ok((value, mutation)) => {
                    &&& game_args::catalog_name(req.args@, "放弃任务 <任务>"@) == Ok::<
                        _,
                        Seq<char>,
                    >(value@)
                    &&& own_mutation(*req, self.config()) == Ok::<(Scope, LogEntry), Seq<char>>(mutation@)
                },
                Err(message) => first_error(
                    game_args::catalog_name(req.args@, "放弃任务 <任务>"@),
                    own_mutation(*req, self.config()),
                ) == Some(message@),
            },
    {
        self.write(parse_required_catalog_name(&req.args, "放弃任务 <任务>"), req)
    }

    /// Reads a challenge.
    pub fn challenge(&self, req: &CommandRequest) -> (result: Result<(String, Mutation), String>)
        ensures
            match result {
                Ok((value, mutation)) => {
                    &&& game_args::catalog_name(req.args@, "挑战 <魂兽>"@) == Ok::<
                        _,
                        Seq<char>,
                    >(value@)
                    &&& own_mutation(*req, self.config()) == Ok::<(Scope, LogEntry), Seq<char>>(mutation@)
                },
                Err(message) => first_error(
                    game_args::catalog_name(req.args@, "挑战 <魂兽>"@),
                    own_mutation(*req, self.config()),
                ) == Some(message@),
            },
    {
        self.write(parse_required_catalog_name(&req.args, "挑战 <魂兽>"), req)
    }

    /// Reads an attack.
    pub fn attack(&self, req: &CommandRequest) -> (result: Result<Mutation, String>)
        ensures
            match result {
                Ok(mutation) => no_arguments(req.args@, "用法：攻击"@) is Ok && own_mutation(*req, self.config()) == Ok::<
                    (Scope, LogEntry),
                    Seq<char>,
                >(mutation@),
                Err(message) => first_error(
                    no_arguments(req.args@, "用法：攻击"@),
                    own_mutation(*req, self.config()),
                ) == Some(message@),
            },
    {
        match self.write(parse_nothing(&req.args, "用法：攻击"), req) {
            Ok((_, mutation)) => Ok(mutation),
            Err(message) => Err(message),
        }
    }

    /// Reads the use of a soul skill.
    pub fn use_skill(&self, req: &CommandRequest) -> (result: Result<(String, Mutation), String>)
        ensures
            match result {
                Ok((value, mutation)) => {
                    &&& game_args::catalog_name(req.args@, "释放技能 <魂技>"@) == Ok::<
                        _,
                        Seq<char>,
                    >(value@)
                    &&& own_mutation(*req, self.config()) == Ok::<(Scope, LogEntry), Seq<char>>(mutation@)
                },
                Err(message) => first_error(
                    game_args::catalog_name(req.args@, "释放技能 <魂技>"@),
                    own_mutation(*req, self.config()),
                ) == Some(message@),
            },
    {
        self.write(parse_required_catalog_name(&req.args, "释放技能 <魂技>"), req)
    }

    /// Reads a flight.
    pub fn flee(&self, req: &CommandRequest) -> (result: Result<Mutation, String>)
        ensures
            match result {
                Ok(mutation) => no_arguments(req.args@, "用法：逃跑"@) is Ok && own_mutation(*req, self.config()) == Ok::<
                    (Scope, LogEntry),
                    Seq<char>,
                >(mutation@),
                Err(message) => first_error(
                    no_arguments(req.args@, "用法：逃跑"@),
                    own_mutation(*req, self.config()),
                ) == Some(message@),
            },
    {
        match self.write(parse_nothing(&req.args, "用法：逃跑"), req) {
            Ok((_, mutation)) => Ok(mutation),
            Err(message) => Err(message),
        }
    }

    /// Reads a request for the battle.
    pub fn battle_status(&self, req: &CommandRequest) -> (result: Result<IdentityKey, String>)
        ensures
            match result {
                Ok(key) => no_arguments(req.args@, "用法：战斗状态"@) is Ok && own_scope(*req, self.config()) == Ok::<
                    Scope,
                    Seq<char>,
                >(key@),
                Err(message) => first_error(
                    no_arguments(req.args@, "用法：战斗状态"@),
                    own_scope(*req, self.config()),
                ) == Some(message@),
            },
    {
        match self.read(parse_nothing(&req.args, "用法：战斗状态"), req) {
            Ok((_, key)) => Ok(key),
            Err(message) => Err(message),
        }
    }

    /// Reads a request for the battle log.
    pub fn battle_logs(&self, req: &CommandRequest) -> (result: Result<(usize, IdentityKey), String>)
        ensures
            match result {
                Ok((value, key)) => {
                    &&& game_args::log_limit(req.args@) == Ok::<
                        _,
                        Seq<char>,
                    >(value as nat)
                    &&& own_scope(*req, self.config()) == Ok::<Scope, Seq<char>>(key@)
                },
                Err(message) => first_error(
                    game_args::log_limit(req.args@),
                    own_scope(*req, self.config()),
                ) == Some(message@),
            },
    {
        self.read(parse_optional_log_limit(&req.args), req)
    }

    /// Reads the use of an item.
    pub fn use_item(&self, req: &CommandRequest) -> (result: Result<(String, Mutation), String>)
        ensures
            match result {
                Ok((value, mutation)) => {
                    &&& game_args::catalog_name(req.args@, "使用 <物品>"@) == Ok::<
                        _,
                        Seq<char>,
                    >(value@)
                    &&& own_mutation(*req, self.config()) == Ok::<(Scope, LogEntry), Seq<char>>(mutation@)
                },
                Err(message) => first_error(
                    game_args::catalog_name(req.args@, "使用 <物品>"@),
                    own_mutation(*req, self.config()),
                ) == Some(message@),
            },
    {
        self.write(parse_required_catalog_name(&req.args, "使用 <物品>"), req)
    }

    /// Reads a request for the place.
    pub fn location(&self, req: &CommandRequest) -> (result: Result<IdentityKey, String>)
        ensures
            match result {
                Ok(key) => no_arguments(req.args@, "用法：位置"@) is Ok && own_scope(*req, self.config()) == Ok::<
                    Scope,
                    Seq<char>,
                >(key@),
                Err(message) => first_error(
                    no_arguments(req.args@, "用法：位置"@),
                    own_scope(*req, self.config()),
                ) == Some(message@),
            },
    {
        match self.read(parse_nothing(&req.args, "用法：位置"), req) {
            Ok((_, key)) => Ok(key),
            Err(message) => Err(message),
        }
    }

    /// Reads a request for the maps.
    pub fn map_list(&self, req: &CommandRequest) -> (result: Result<(usize, IdentityKey), String>)
        ensures
            match result {
                Ok((value, key)) => {
                    &&& game_args::map_page(req.args@) == Ok::<
                        _,
                        Seq<char>,
                    >(value)
                    &&& own_scope(*req, self.config()) == Ok::<Scope, Seq<char>>(key@)
                },
                Err(message) => first_error(
                    game_args::map_page(req.args@),
                    own_scope(*req, self.config()),
                ) == Some(message@),
            },
    {
        self.read(parse_map_page(&req.args), req)
    }

    /// Reads a move.
    pub fn move_direction(&self, req: &CommandRequest) -> (result: Result<(String, Mutation), String>)
        ensures
            match result {
                Ok((value, mutation)) => {
                    &&& game_args::direction_argument(req.args@) == Ok::<
                        _,
                        Seq<char>,
                    >(value@)
                    &&& own_mutation(*req, self.config()) == Ok::<(Scope, LogEntry), Seq<char>>(mutation@)
                },
                Err(message) => first_error(
                    game_args::direction_argument(req.args@),
                    own_mutation(*req, self.config()),
                ) == Some(message@),
            },
    {
        self.write(parse_direction_arg(&req.args), req)
    }

    /// Reads a teleport.
    pub fn teleport(&self, req: &CommandRequest) -> (result: Result<(Option<String>, Mutation), String>)
        ensures
            match result {
                Ok((value, mutation)) => {
                    &&& game_args::map_argument(req.args@) == Ok::<
                        _,
                        Seq<char>,
                    >(text::optional_text(value))
                    &&& own_mutation(*req, self.config()) == Ok::<(Scope, LogEntry), Seq<char>>(mutation@)
                },
                Err(message) => first_error(
                    game_args::map_argument(req.args@),
                    own_mutation(*req, self.config()),
                ) == Some(message@),
            },
    {
        self.write(parse_optional_map_name(&req.args), req)
    }

    /// Reads a request for the progress of quests.
    pub fn quest_progress(&self, req: &CommandRequest) -> (result: Result<(Option<String>, IdentityKey), String>)
        ensures
            match result {
                Ok((value, key)) => {
                    &&& game_args::quest_argument(req.args@) == Ok::<
                        _,
                        Seq<char>,
                    >(text::optional_text(value))
                    &&& own_scope(*req, self.config()) == Ok::<Scope, Seq<char>>(key@)
                },
                Err(message) => first_error(
                    game_args::quest_argument(req.args@),
                    own_scope(*req, self.config()),
                ) == Some(message@),
            },
    {
        self.read(parse_optional_quest_name(&req.args), req)
    }

    /// Reads a request for a shop.
    pub fn shop(&self, req: &CommandRequest) -> (result: Result<((Option<String>, usize), IdentityKey), String>)
        ensures
            match result {
                Ok((value, key)) => {
                    &&& game_args::shop_arguments(req.args@) == Ok::<
                        _,
                        Seq<char>,
                    >((text::optional_text(value.0), value.1 as nat))
                    &&& own_scope(*req, self.config()) == Ok::<Scope, Seq<char>>(key@)
                },
                Err(message) => first_error(
                    game_args::shop_arguments(req.args@),
                    own_scope(*req, self.config()),
                ) == Some(message@),
            },
    {
        self.read(parse_shop_args(&req.args), req)
    }

    /// Reads a request for the authorised conversations.
    pub fn list_contexts(&self, req: &CommandRequest) -> (result: Result<(Option<i64>, IdentityKey), String>)
        ensures
            match result {
                Ok((value, key)) => {
                    &&& game_args::context_cursor(req.args@) == Ok::<
                        _,
                        Seq<char>,
                    >((match value {
                        Some(cursor) => Some(cursor as int),
                        None => None,
                    }))
                    &&& own_scope(*req, self.config()) == Ok::<Scope, Seq<char>>(key@)
                },
                Err(message) => first_error(
                    game_args::context_cursor(req.args@),
                    own_scope(*req, self.config()),
                ) == Some(message@),
            },
    {
        self.read(parse_context_cursor(&req.args), req)
    }

    /// Reads a purchase.
    pub fn buy(&self, req: &CommandRequest) -> (result: Result<((String, i64), Mutation), String>)
        ensures
            match result {
                Ok((value, mutation)) => {
                    &&& game_args::item_quantity(
                            req.args@,
                            self.config().messages.legacy_hyphen_arguments,
                            "购买 <物品> [数量]"@,
                        ) == Ok::<
                        _,
                        Seq<char>,
                    >((value.0@, value.1 as int))
                    &&& own_mutation(*req, self.config()) == Ok::<(Scope, LogEntry), Seq<char>>(mutation@)
                },
                Err(message) => first_error(
                    game_args::item_quantity(
                        req.args@,
                        self.config().messages.legacy_hyphen_arguments,
                        "购买 <物品> [数量]"@,
                    ),
                    own_mutation(*req, self.config()),
                ) == Some(message@),
            },
    {
        self.write(parse_item_quantity(
            &req.args,
            self.config.messages.legacy_hyphen_arguments,
            "购买 <物品> [数量]",
        ), req)
    }

    /// Reads a sale.
    pub fn sell(&self, req: &CommandRequest) -> (result: Result<((String, i64), Mutation), String>)
        ensures
            match result {
                Ok((value, mutation)) => {
                    &&& game_args::item_quantity(
                            req.args@,
                            self.config().messages.legacy_hyphen_arguments,
                            "出售 <物品> [数量]"@,
                        ) == Ok::<
                        _,
                        Seq<char>,
                    >((value.0@, value.1 as int))
                    &&& own_mutation(*req, self.config()) == Ok::<(Scope, LogEntry), Seq<char>>(mutation@)
                },
                Err(message) => first_error(
                    game_args::item_quantity(
                        req.args@,
                        self.config().messages.legacy_hyphen_arguments,
                        "出售 <物品> [数量]"@,
                    ),
                    own_mutation(*req, self.config()),
                ) == Some(message@),
            },
    {
        self.write(parse_item_quantity(
            &req.args,
            self.config.messages.legacy_hyphen_arguments,
            "出售 <物品> [数量]",
        ), req)
    }

    /// Reads a registration.
    pub fn register(&self, req: &CommandRequest) -> (result: Result<
        ((String, String), Mutation),
        String,
    >)
        ensures
            match result {
                Ok((value, mutation)) => {
                    &&& new_player(req.args@, self.config()) == Ok::<_, Seq<char>>(value@)
                    &&& own_mutation(*req, self.config()) == Ok::<
                        (Scope, LogEntry),
                        Seq<char>,
                    >(mutation@)
                },
                Err(message) => first_error(
                    new_player(req.args@, self.config()),
                    own_mutation(*req, self.config()),
                ) == Some(message@),
            },
    {
        let (name, gender) = match parse_registration_args(
            &req.args,
            self.config.messages.legacy_hyphen_arguments,
        ) {
            Ok(parsed) => parsed,
            Err(message) => return Err(message),
        };
        let length = name.as_str().unicode_len();
        if !(2 <= length && length <= self.config.identity.max_character_name_chars) {
            return Err(
                cat3(
                    "角色名长度必须在 2 到 ",
                    &usize_text(self.config.identity.max_character_name_chars),
                    " 个字符之间",
                ),
            );
        }
        if !same(&gender, "男") && !same(&gender, "女") {
            return Err("性别只能填写“男”或“女”".to_owned());
        }
        let args: Result<(String, String), String> = Ok((name, gender));
        self.write(args, req)
    }

    /// Reads the awakening of a martial soul.
    pub fn awaken(&self, req: &CommandRequest) -> (result: Result<Mutation, String>)
        ensures
            text::outcome(result) == own_mutation(*req, self.config()),
    {
        self.mutation(req)
    }

    /// Reads a request to put a soul skill into use, or out of it.
    pub fn set_skill_equipped(&self, req: &CommandRequest, equipped: bool) -> (result: Result<
        (String, Mutation),
        String,
    >)
        ensures
            match result {
                Ok((value, mutation)) => {
                    &&& game_args::catalog_name(req.args@, loadout_usage(equipped)) == Ok::<
                        _,
                        Seq<char>,
                    >(value@)
                    &&& own_mutation(*req, self.config()) == Ok::<
                        (Scope, LogEntry),
                        Seq<char>,
                    >(mutation@)
                },
                Err(message) => first_error(
                    game_args::catalog_name(req.args@, loadout_usage(equipped)),
                    own_mutation(*req, self.config()),
                ) == Some(message@),
            },
    {
        let usage = if equipped {
            "装备魂技 <魂技>"
        } else {
            "卸下魂技 <魂技>"
        };
        self.write(parse_required_catalog_name(&req.args, usage), req)
    }

    /// Reads a request to put a soul skill into use.
    pub fn equip_skill(&self, req: &CommandRequest) -> (result: Result<(String, Mutation), String>)
        ensures
            match result {
                Ok((value, mutation)) => {
                    &&& game_args::catalog_name(req.args@, loadout_usage(true)) == Ok::<
                        _,
                        Seq<char>,
                    >(value@)
                    &&& own_mutation(*req, self.config()) == Ok::<
                        (Scope, LogEntry),
                        Seq<char>,
                    >(mutation@)
                },
                Err(message) => first_error(
                    game_args::catalog_name(req.args@, loadout_usage(true)),
                    own_mutation(*req, self.config()),
                ) == Some(message@),
            },
    {
        self.set_skill_equipped(req, true)
    }

    /// Reads a request to put a soul skill out of use.
    pub fn unequip_skill(&self, req: &CommandRequest) -> (result: Result<
        (String, Mutation),
        String,
    >)
        ensures
            match result {
                Ok((value, mutation)) => {
                    &&& game_args::catalog_name(req.args@, loadout_usage(false)) == Ok::<
                        _,
                        Seq<char>,
                    >(value@)
                    &&& own_mutation(*req, self.config()) == Ok::<
                        (Scope, LogEntry),
                        Seq<char>,
                    >(mutation@)
                },
                Err(message) => first_error(
                    game_args::catalog_name(req.args@, loadout_usage(false)),
                    own_mutation(*req, self.config()),
                ) == Some(message@),
            },
    {
        self.set_skill_equipped(req, false)
    }

    /// Reads a request to open or close the martial soul.
    pub fn toggle_wuhun(&self, req: &CommandRequest, enabled: bool) -> (result: Result<
        Mutation,
        String,
    >)
        ensures
            match result {
                Ok(mutation) => {
                    &&& no_arguments(req.args@, toggle_usage(enabled)) is Ok
                    &&& own_mutation(*req, self.config()) == Ok::<
                        (Scope, LogEntry),
                        Seq<char>,
                    >(mutation@)
                },
                Err(message) => first_error(
                    no_arguments(req.args@, toggle_usage(enabled)),
                    own_mutation(*req, self.config()),
                ) == Some(message@),
            },
    {
        let word = if enabled {
            "开"
        } else {
            "关"
        };
        match self.write(parse_nothing(&req.args, &cat3("用法：", word, "武魂")), req) {
            Ok((_, mutation)) => Ok(mutation),
            Err(message) => Err(message),
        }
    }

    /// Reads a request to open the martial soul.
    pub fn open_wuhun(&self, req: &CommandRequest) -> (result: Result<Mutation, String>)
        ensures
            match result {
                Ok(mutation) => {
                    &&& no_arguments(req.args@, toggle_usage(true)) is Ok
                    &&& own_mutation(*req, self.config()) == Ok::<
                        (Scope, LogEntry),
                        Seq<char>,
                    >(mutation@)
                },
                Err(message) => first_error(
                    no_arguments(req.args@, toggle_usage(true)),
                    own_mutation(*req, self.config()),
                ) == Some(message@),
            },
    {
        self.toggle_wuhun(req, true)
    }

    /// Reads a request to close the martial soul.
    pub fn close_wuhun(&self, req: &CommandRequest) -> (result: Result<Mutation, String>)
        ensures
            match result {
                Ok(mutation) => {
                    &&& no_arguments(req.args@, toggle_usage(false)) is Ok
                    &&& own_mutation(*req, self.config()) == Ok::<
                        (Scope, LogEntry),
                        Seq<char>,
                    >(mutation@)
                },
                Err(message) => first_error(
                    no_arguments(req.args@, toggle_usage(false)),
                    own_mutation(*req, self.config()),
                ) == Some(message@),
            },
    {
        self.toggle_wuhun(req, false)
    }

    /// Reads a check-in at a moment, or with a clock that could not be read.
    pub fn daily_checkin(&self, req: &CommandRequest, now: Result<i64, String>) -> (result: Result<
        (DailyCheckinInput, Mutation),
        String,
    >)
        ensures
            match result {
                Ok((input, mutation)) => {
                    &&& no_arguments(req.args@, "用法：签到"@) is Ok
                    &&& own_mutation(*req, self.config()) == Ok::<
                        (Scope, LogEntry),
                        Seq<char>,
                    >(mutation@)
                    &&& today(now) == Ok::<int, Seq<char>>(input.game_day as int)
                    &&& input.currency_code@ == CHECKIN_CURRENCY_CODE@
                    &&& input.currency_reward_override is None
                },
                Err(message) => match first_error(
                    no_arguments(req.args@, "用法：签到"@),
                    own_mutation(*req, self.config()),
                ) {
                    Some(reason) => reason == message@,
                    None => today(now) == Err::<int, Seq<char>>(message@),
                },
            },
    {
        let mutation = match self.write(parse_nothing(&req.args, "用法：签到"), req) {
            Ok((_, mutation)) => mutation,
            Err(message) => return Err(message),
        };
        let timestamp = match now {
            Ok(timestamp) => timestamp,
            Err(message) => return Err(message),
        };
        match game_day_from_timestamp(timestamp) {
            Ok(game_day) => Ok(
                (
                    DailyCheckinInput {
                        game_day,
                        currency_code: CHECKIN_CURRENCY_CODE,
                        currency_reward_override: None,
                    },
                    mutation,
                ),
            ),
            Err(message) => Err(message),
        }
    }

    /// Reads a transfer. The player whom the message mentions is the recipient.
    pub fn transfer_gold(&self, req: &CommandRequest, mention: Result<Option<String>, String>) -> (result:
        Result<((String, i64), Mutation), String>)
        ensures
            match result {
                Ok((value, mutation)) => {
                    &&& own_mutation(*req, self.config()) == Ok::<
                        (Scope, LogEntry),
                        Seq<char>,
                    >(mutation@)
                    &&& transfer_request(*req, self.config(), mention) == Ok::<_, Seq<char>>(
                        (value.0@, value.1 as int),
                    )
                },
                Err(message) => transfer_request(*req, self.config(), mention) == Err::<
                    (Seq<char>, int),
                    Seq<char>,
                >(message@),
            },
    {
        let identity = match resolve_identity(req, &self.config.identity) {
            Ok(identity) => identity,
            Err(message) => return Err(message),
        };
        let mention = match mention {
            Ok(mention) => mention,
            Err(message) => return Err(message),
        };
        let parsed = match parse_transfer_args(
            &req.args,
            mention,
            self.config.messages.legacy_hyphen_arguments,
        ) {
            Ok(parsed) => parsed,
            Err(message) => return Err(message),
        };
        if same(&parsed.0, &identity.subject_id) {
            return Err("不能向自己转账".to_owned());
        }
        Ok((parsed, self.mutation_by(req, &identity)))
    }

    /// Reads a gift. The player whom the message mentions is the recipient.
    pub fn gift_item(&self, req: &CommandRequest, mention: Result<Option<String>, String>) -> (result:
        Result<((String, String, i64), Mutation), String>)
        ensures
            match result {
                Ok((value, mutation)) => {
                    &&& own_mutation(*req, self.config()) == Ok::<
                        (Scope, LogEntry),
                        Seq<char>,
                    >(mutation@)
                    &&& gift_request(*req, self.config(), mention) == Ok::<_, Seq<char>>(
                        (value.0@, value.1@, value.2 as int),
                    )
                },
                Err(message) => gift_request(*req, self.config(), mention) == Err::<
                    (Seq<char>, Seq<char>, int),
                    Seq<char>,
                >(message@),
            },
    {
        let identity = match resolve_identity(req, &self.config.identity) {
            Ok(identity) => identity,
            Err(message) => return Err(message),
        };
        let mention = match mention {
            Ok(mention) => mention,
            Err(message) => return Err(message),
        };
        let parsed = match parse_gift_args(
            &req.args,
            mention,
            self.config.messages.legacy_hyphen_arguments,
        ) {
            Ok(parsed) => parsed,
            Err(message) => return Err(message),
        };
        if same(&parsed.0, &identity.subject_id) {
            return Err("不能向自己发送物品".to_owned());
        }
        Ok((parsed, self.mutation_by(req, &identity)))
    }

    /// Reads a request for the state of the sender; it takes no notice of arguments.
    pub fn status(&self, req: &CommandRequest) -> (result: Result<IdentityKey, String>)
        ensures
            text::outcome(result) == own_scope(*req, self.config()),
    {
        self.own_key(req)
    }

    /// Reads a request to look at the old record of a player.
    pub fn inspect_legacy(&self, req: &CommandRequest) -> (result: Result<
        (ResolvedIdentity, IdentityKey),
        String,
    >)
        ensures
            match result {
                Ok((identity, key)) => {
                    &&& sender(*req, self.config()) == Ok::<identity::Identity, Seq<char>>(
                        identity@,
                    )
                    &&& game_args::inspect_argument(req.args@) is Ok
                    &&& key@ == scope(
                        identity@,
                        self.config().identity.namespace@,
                        game_args::inspect_argument(req.args@)->Ok_0,
                    )
                },
                Err(message) => first_error(
                    game_args::inspect_argument(req.args@),
                    sender(*req, self.config()),
                ) == Some(message@),
            },
    {
        let target = match parse_legacy_inspect_args(&req.args) {
            Ok(target) => target,
            Err(message) => return Err(message),
        };
        match resolve_identity(req, &self.config.identity) {
            Ok(identity) => {
                let key = self.identity_key(&identity, &target);
                Ok((identity, key))
            },
            Err(message) => Err(message),
        }
    }

    /// Reads a claim to an old record. The account that is named has to be the one that
    /// the request came through.
    pub fn claim_legacy(&self, req: &CommandRequest) -> (result: Result<LegacyClaim, String>)
        ensures
            match result {
                Ok(claim) => {
                    &&& claim_request(*req, self.config()) == Ok::<_, Seq<char>>(
                        (claim.identity@, claim.mutation.key@),
                    )
                    &&& claim.mutation.operation@ == success(
                        *req,
                        details(*req, claim.identity@.protocol),
                    )
                    &&& claim.message_id@ == req.message_id@
                    &&& claim.reason@ == "owner-explicit-legacy-claim"@
                },
                Err(message) => claim_request(*req, self.config()) matches Err(reason) && reason == message@,
            },
    {
        let (target, account) = match parse_legacy_claim_args(&req.args) {
            Ok(parsed) => parsed,
            Err(message) => return Err(message),
        };
        let identity = match resolve_identity(req, &self.config.identity) {
            Ok(identity) => identity,
            Err(message) => return Err(message),
        };
        if !same(&account, &identity.account_id) {
            return Err("参数中的 account_id 与当前机器人账号不一致，已取消认领".to_owned());
        }
        let details_json = operation_details(req, identity.protocol);
        let mutation = Mutation {
            key: self.identity_key(&identity, &target),
            operation: successful_operation(req, details_json),
        };
        Ok(
            LegacyClaim {
                identity,
                mutation,
                message_id: req.message_id.as_str().to_owned(),
                reason: "owner-explicit-legacy-claim",
            },
        )
    }

    fn context_mutation(
        &self,
        req: &CommandRequest,
        identity: &ResolvedIdentity,
        kind: &str,
        id: &str,
    ) -> (mutation: Mutation)
        ensures
            mutation@ == context_change(*req, self.config(), identity@, kind@, id@),
    {
        let details_json = context_operation_details(req, identity.protocol, kind, id);
        Mutation {
            key: self.identity_key(identity, &identity.subject_id),
            operation: successful_operation(req, details_json),
        }
    }

    /// Reads the authorisation of a conversation.
    pub fn grant_context(&self, req: &CommandRequest) -> (result: Result<
        ((String, String, String), Mutation),
        String,
    >)
        ensures
            match result {
                Ok((value, mutation)) => grant_request(*req, self.config()) == Ok::<_, Seq<char>>(
                    (value@, mutation@),
                ),
                Err(message) => grant_request(*req, self.config()) matches Err(reason) && reason == message@,
            },
    {
        let parsed = match parse_grant_context_args(&req.args) {
            Ok(parsed) => parsed,
            Err(message) => return Err(message),
        };
        let identity = match resolve_identity(req, &self.config.identity) {
            Ok(identity) => identity,
            Err(message) => return Err(message),
        };
        match validate_context_kind_for_protocol(identity.protocol, &parsed.0) {
            Ok(_) => {},
            Err(message) => return Err(message),
        }
        let mutation = self.context_mutation(req, &identity, &parsed.0, &parsed.1);
        Ok((parsed, mutation))
    }

    /// Reads the end of an authorisation.
    pub fn revoke_context(&self, req: &CommandRequest) -> (result: Result<
        ((String, String), Mutation),
        String,
    >)
        ensures
            match result {
                Ok((value, mutation)) => revoke_request(*req, self.config()) == Ok::<_, Seq<char>>(
                    (value@, mutation@),
                ),
                Err(message) => revoke_request(*req, self.config()) matches Err(reason) && reason == message@,
            },
    {
        let parsed = match parse_revoke_context_args(&req.args) {
            Ok(parsed) => parsed,
            Err(message) => return Err(message),
        };
        let identity = match resolve_identity(req, &self.config.identity) {
            Ok(identity) => identity,
            Err(message) => return Err(message),
        };
        match validate_context_kind_for_protocol(identity.protocol, &parsed.0) {
            Ok(_) => {},
            Err(message) => return Err(message),
        }
        let mutation = self.context_mutation(req, &identity, &parsed.0, &parsed.1);
        Ok((parsed, mutation))
    }

    /// What is logged about a request that ended in some way.
    pub fn record_operation(&self, req: &CommandRequest, outcome: &str) -> (result: Result<
        Mutation,
        String,
    >)
        ensures
            text::outcome(result) == (match own_mutation(*req, self.config()) {
                Ok((scope, entry)) => Ok((scope, LogEntry { outcome: outcome@, ..entry })),
                Err(message) => Err(message),
            }),
    {
        match self.mutation(req) {
            Ok(mutation) => {
                let operation = OperationLogInput {
                    command: mutation.operation.command,
                    outcome: outcome.to_owned(),
                    source_message_id: mutation.operation.source_message_id,
                    details_json: mutation.operation.details_json,
                };
                Ok(Mutation { key: mutation.key, operation })
            },
            Err(message) => Err(message),
        }
    }

    /// Whether a request may be run, or what has to be asked of the store first.
    pub fn ensure_context_authorized(&self, req: &CommandRequest) -> (result: Result<
        AuthorizationStep,
        String,
    >)
        ensures
            text::outcome(result) == authorization(*req, self.config()),
    {
        if self.config.authorization.mode == AuthorizationMode::AllowAll {
            return Ok(AuthorizationStep::Allowed);
        }
        let protocol = match resolve_protocol(req) {
            Ok(protocol) => protocol,
            Err(message) => return Err(message),
        };
        let conversation = match resolve_conversation_context(req, protocol) {
            Ok(conversation) => conversation,
            Err(message) => return Err(message),
        };
        let (kind, id) = match conversation.authorization_target() {
            Some((kind, id)) => (kind, id),
            None => return Ok(AuthorizationStep::Allowed),
        };
        match self.own_key(req) {
            Ok(key) => Ok(AuthorizationStep::Ask { key, kind, id: id.to_owned() }),
            Err(message) => Err(message),
        }
    }
}

/// How a change of the soul skills in use is written.
pub open spec fn loadout_usage(equipped: bool) -> Seq<char> {
    if equipped {
        "装备魂技 <魂技>"@
    } else {
        "卸下魂技 <魂技>"@
    }
}

/// How the martial soul is opened or closed.
pub open spec fn toggle_usage(enabled: bool) -> Seq<char> {
    "用法："@ + (if enabled {
        "开"@
    } else {
        "关"@
    }) + "武魂"@
}

/// What the store needs for a check-in.
#[derive(Clone, Copy, Debug, PartialEq, Eq)]
pub struct DailyCheckinInput {
    pub game_day: i64,
    pub currency_code: &'static str,
    pub currency_reward_override: Option<i64>,
}

/// The game day that a clock shows.
pub open spec fn today(now: Result<i64, String>) -> Result<int, Seq<char>> {
    match now {
        Err(message) => Err(message@),
        Ok(timestamp) => if timestamp + checkin::BEIJING_04_OFFSET_SECONDS > i64::MAX {
            Err("系统时间戳超出可计算范围"@)
        } else {
            Ok(checkin::game_day(timestamp as int))
        },
    }
}

/// The seconds since the epoch that a clock shows, as the calendar takes them.
pub fn current_unix_timestamp(seconds: u64) -> (result: Result<i64, String>)
    ensures
        game_args::i64_outcome(result) == (if seconds > i64::MAX {
            Err("系统时间戳超出 i64 范围"@)
        } else {
            Ok(seconds as int)
        }),
{
    if seconds > i64::MAX as u64 {
        return Err("系统时间戳超出 i64 范围".to_owned());
    }
    Ok(seconds as i64)
}

/// The recipient and the amount of a transfer, once everything is checked.
pub open spec fn transfer_request(
    req: CommandRequest,
    config: PluginConfig,
    mention: Result<Option<String>, String>,
) -> Result<(Seq<char>, int), Seq<char>> {
    match sender(req, config) {
        Err(message) => Err(message),
        Ok(identity) => match mention {
            Err(message) => Err(message@),
            Ok(mention) => match game_args::transfer_arguments(
                req.args@,
                text::optional_text(mention),
                config.messages.legacy_hyphen_arguments,
            ) {
                Err(message) => Err(message),
                Ok(parsed) => if parsed.0 == identity.subject_id {
                    Err("不能向自己转账"@)
                } else {
                    Ok(parsed)
                },
            },
        },
    }
}

/// The recipient, the item and the quantity of a gift, once everything is checked.
pub open spec fn gift_request(
    req: CommandRequest,
    config: PluginConfig,
    mention: Result<Option<String>, String>,
) -> Result<(Seq<char>, Seq<char>, int), Seq<char>> {
    match sender(req, config) {
        Err(message) => Err(message),
        Ok(identity) => match mention {
            Err(message) => Err(message@),
            Ok(mention) => match game_args::gift_arguments(
                req.args@,
                text::optional_text(mention),
                config.messages.legacy_hyphen_arguments,
            ) {
                Err(message) => Err(message),
                Ok(parsed) => if parsed.0 == identity.subject_id {
                    Err("不能向自己发送物品"@)
                } else {
                    Ok(parsed)
                },
            },
        },
    }
}

/// A claim to an old record: who claims it, whose record it is and what is logged.
#[derive(Clone, Debug, PartialEq, Eq)]
pub struct LegacyClaim {
    pub identity: ResolvedIdentity,
    pub mutation: Mutation,
    pub message_id: String,
    pub reason: &'static str,
}

/// Who claims an old record, and whose record it is.
pub open spec fn claim_request(req: CommandRequest, config: PluginConfig) -> Result<
    (identity::Identity, Scope),
    Seq<char>,
> {
    match game_args::claim_arguments(req.args@) {
        Err(message) => Err(message),
        Ok((target, account)) => match sender(req, config) {
            Err(message) => Err(message),
            Ok(identity) => if account != identity.account_id {
                Err("参数中的 account_id 与当前机器人账号不一致，已取消认领"@)
            } else {
                Ok((identity, scope(identity, config.identity.namespace@, target)))
            },
        },
    }
}

/// Whose authorisation changes, and what is logged with the change.
pub open spec fn context_change(
    req: CommandRequest,
    config: PluginConfig,
    identity: identity::Identity,
    kind: Seq<char>,
    id: Seq<char>,
) -> (Scope, LogEntry) {
    (
        scope(identity, config.identity.namespace@, identity.subject_id),
        success(req, context_details(req, identity.protocol, kind, id)),
    )
}

/// The conversation that is authorised, once everything is checked.
pub open spec fn grant_request(req: CommandRequest, config: PluginConfig) -> Result<
    ((Seq<char>, Seq<char>, Seq<char>), (Scope, LogEntry)),
    Seq<char>,
> {
    match game_args::grant_arguments(req.args@) {
        Err(message) => Err(message),
        Ok(parsed) => match sender(req, config) {
            Err(message) => Err(message),
            Ok(identity) => match game_args::context_kind_error(identity.protocol, parsed.0) {
                Some(message) => Err(message),
                None => Ok((parsed, context_change(req, config, identity, parsed.0, parsed.1))),
            },
        },
    }
}

/// The conversation that is no longer authorised, once everything is checked.
pub open spec fn revoke_request(req: CommandRequest, config: PluginConfig) -> Result<
    ((Seq<char>, Seq<char>), (Scope, LogEntry)),
    Seq<char>,
> {
    match game_args::revoke_arguments(req.args@) {
        Err(message) => Err(message),
        Ok(parsed) => match sender(req, config) {
            Err(message) => Err(message),
            Ok(identity) => match game_args::context_kind_error(identity.protocol, parsed.0) {
                Some(message) => Err(message),
                None => Ok((parsed, context_change(req, config, identity, parsed.0, parsed.1))),
            },
        },
    }
}

/// What the authorisation of a request depends on.
#[derive(Clone, Debug, PartialEq, Eq)]
pub enum AuthorizationStep {
    /// The request may be run.
    Allowed,
    /// The store has to know the conversation.
    Ask { key: IdentityKey, kind: &'static str, id: String },
}

/// The mathematical form of such a step.
pub enum Gate {
    Allowed,
    Ask { scope: Scope, kind: Seq<char>, id: Seq<char> },
}

impl View for AuthorizationStep {
    type V = Gate;

    open spec fn view(&self) -> Gate {
        match self {
            AuthorizationStep::Allowed => Gate::Allowed,
            AuthorizationStep::Ask { key, kind, id } => Gate::Ask {
                scope: key@,
                kind: kind@,
                id: id@,
            },
        }
    }
}

/// Whether a request may be run: always where everybody is allowed and in private
/// conversations; else the store has to know the conversation.
pub open spec fn authorization(req: CommandRequest, config: PluginConfig) -> Result<
    Gate,
    Seq<char>,
> {
    if config.authorization.mode == AuthorizationMode::AllowAll {
        Ok(Gate::Allowed)
    } else {
        match identity::event_protocol(identity::identity_facts(req.raw_event_json@)) {
            Err(message) => Err(message),
            Ok(protocol) => match conversation(req, protocol) {
                Err(message) => Err(message),
                Ok(conversation) => match context::target_of(conversation) {
                    None => Ok(Gate::Allowed),
                    Some((kind, id)) => match own_scope(req, config) {
                        Err(message) => Err(message),
                        Ok(scope) => Ok(Gate::Ask { scope, kind, id }),
                    },
                },
            },
        }
    }
}

/// What is answered to a request from a conversation that the store was asked about.
pub fn authorization_verdict(kind: &str, authorized: bool) -> (result: Result<(), String>)
    ensures
        config::failure(result) == (if authorized {
            None
        } else {
            Some(
                "当前"@ + (if kind@ == "channel"@ {
                    "频道"@
                } else {
                    "群聊"@
                }) + "尚未授权使用斗罗大陆游戏，请联系机器人所有者"@,
            )
        }),
{
    if authorized {
        return Ok(());
    }
    let place = if same(kind, "channel") {
        "频道"
    } else {
        "群聊"
    };
    Err(cat3("当前", place, "尚未授权使用斗罗大陆游戏，请联系机器人所有者"))
}

/// Where everybody is allowed, nothing is asked; a private conversation is never
/// asked about either.
pub proof fn private_requests_are_never_gated(req: CommandRequest, config: PluginConfig)
    ensures
        config.authorization.mode == AuthorizationMode::AllowAll ==> authorization(req, config)
            == Ok::<Gate, Seq<char>>(Gate::Allowed),
        ({
            &&& identity::event_protocol(identity::identity_facts(req.raw_event_json@)) matches Ok(
                protocol,
            )
            &&& conversation(req, protocol) matches Ok(place)
            &&& context::target_of(place) is None
        }) ==> authorization(req, config) == Ok::<Gate, Seq<char>>(Gate::Allowed),
{
}

/// What is logged never holds the arguments of a command: two requests that differ only
/// in arguments that are not blank are logged alike.
pub proof fn logs_do_not_hold_arguments(
    first: CommandRequest,
    second: CommandRequest,
    protocol: Protocol,
)
    requires
        first.group_id == second.group_id,
        first.raw_event_json == second.raw_event_json,
        text::is_blank(first.args@) == text::is_blank(second.args@),
    ensures
        details(first, protocol) == details(second, protocol),
{
}

/// Nobody transfers money or gives items to themselves.
pub proof fn nobody_pays_themselves(
    req: CommandRequest,
    config: PluginConfig,
    mention: Result<Option<String>, String>,
)
    ensures
        transfer_request(req, config, mention) matches Ok(parsed) ==> sender(
            req,
            config,
        ) matches Ok(identity) && parsed.0 != identity.subject_id,
        gift_request(req, config, mention) matches Ok(parsed) ==> sender(req, config) matches Ok(
            identity,
        ) && parsed.0 != identity.subject_id,
{
}

/// A claim is only ever made for the account that the request came through, and the
/// record that it is about is that of the player who was named.
pub proof fn claims_stay_within_the_account(req: CommandRequest, config: PluginConfig)
    ensures
        claim_request(req, config) matches Ok(claim) ==> {
            &&& sender(req, config) == Ok::<identity::Identity, Seq<char>>(claim.0)
            &&& game_args::claim_arguments(req.args@) matches Ok(named)
            &&& claim.1.subject_id == named.0
            &&& claim.1.account_id == named.1
            &&& claim.1.account_id == claim.0.account_id
        },
{
}

} // verus!
