//! What settings, addresses and keys are sound, and which pictures are shown how.
use crate::catalog;
use crate::catalog::Binding;
use crate::config;
use crate::config::{IllustrationConfig, IllustrationMode, MessageConfig, PluginConfig};
use crate::game;
use crate::host::Reply;
use crate::menu;
use crate::message;
use crate::message::{Document, Picture, Protocol, Resolved, Source};
use crate::outside;
use crate::text;
use vstd::prelude::*;

verus! {

/// Settings are sound exactly when the database lies at a safe path, it is waited for between
/// 100 and 30000 milliseconds, the namespace has 1 to 64 plain characters, and names may have
/// 2 to 20 characters; the first fault is named.
pub proof fn settings_are_sound_within_their_bounds(config: PluginConfig)
    ensures
        ({
            let space = config.identity.namespace@;
            let safe = config::is_safe_path(config.database.relative_path@);
            let waited = 100 <= config.database.busy_timeout_ms <= 30000;
            let plain = 1 <= space.len() <= 64 && (forall|i: int|
                0 <= i < space.len() ==> {
                    let c = #[trigger] space[i];
                    ||| 'a' <= c <= 'z'
                    ||| 'A' <= c <= 'Z'
                    ||| '0' <= c <= '9'
                    ||| c == '.'
                    ||| c == '_'
                    ||| c == '-'
                });
            let short = 2 <= config.identity.max_character_name_chars <= 20;
            let error = config::config_error(config);
            &&& error is None <==> safe && waited && plain && short
            &&& !safe ==> error == Some("database.relative_path 必须是 data_dir 内的安全相对路径"@)
            &&& safe && !waited ==> error == Some(
                "database.busy_timeout_ms 必须在 100 到 30000 之间"@,
            )
            &&& safe && waited && !plain ==> error == Some(
                "identity.namespace 只能包含字母、数字、点、下划线和横线，长度 1-64"@,
            )
            &&& safe && waited && plain && !short ==> error == Some(
                "identity.max_character_name_chars 必须在 2 到 20 之间"@,
            )
        }),
{
    let space = config.identity.namespace@;
    assert(config::all_name_chars(space) <==> (forall|i: int|
        0 <= i < space.len() ==> {
            let c = #[trigger] space[i];
            ||| 'a' <= c <= 'z'
            ||| 'A' <= c <= 'Z'
            ||| '0' <= c <= '9'
            ||| c == '.'
            ||| c == '_'
            ||| c == '-'
        })) by {
        if config::all_name_chars(space) {
            assert forall|i: int| 0 <= i < space.len() implies {
                let c = #[trigger] space[i];
                ||| 'a' <= c <= 'z'
                ||| 'A' <= c <= 'Z'
                ||| '0' <= c <= '9'
                ||| c == '.'
                ||| c == '_'
                ||| c == '-'
            } by {
                assert(config::is_name_char(space[i]));
            }
        }
    }
}

/// Without settings the database lies in the data of the game and is waited for three
/// seconds, names have up to six characters, the official protocol is sent marked texts and
/// OneBot plain ones, the old form of arguments is read, pictures are shown from the files of
/// the game, and everyone is allowed.
pub proof fn settings_that_are_left_out(config: PluginConfig)
    ensures
        config::is_default(config) ==> {
            &&& config.database.relative_path@ == "douluo-game/douluo.db"@
            &&& config.database.busy_timeout_ms == 3000
            &&& config.identity.namespace@ == "default"@
            &&& config.identity.max_character_name_chars == 6
            &&& config.identity.qq_official_account_id@ == ""@
            &&& config.messages.qq_official_markdown
            &&& !config.messages.onebot_markdown
            &&& config.messages.legacy_hyphen_arguments
            &&& config.illustrations.enabled
            &&& config.illustrations.mode == IllustrationMode::Direct
            &&& config.illustrations.direct_asset_root@ == "douluo-game/assets"@
            &&& config.illustrations.remote_base_url@ == ""@
            &&& config.authorization.mode == config::AuthorizationMode::AllowAll
        },
{
}

/// Parts on both sides of a separator are the parts of the whole.
pub proof fn parts_on_both_sides_are_all_parts(left: Seq<char>, right: Seq<char>, separator: char)
    ensures
        text::parts(left + seq![separator] + right, separator) == text::parts(left, separator)
            + text::parts(right, separator),
    decreases left.len(),
{
    let all = left + seq![separator] + right;
    let p = text::other_than(separator);
    text::lemma_run_len_facts(left, p);
    let k = text::index_of(left, separator) as int;
    assert forall|j: int| 0 <= j < k implies p(#[trigger] all[j]) by {
        assert(all[j] == left[j]);
    }
    if k < left.len() {
        assert(all[k] == left[k]);
        text::lemma_run_len(all, p, k);
        assert(all.take(k) =~= left.take(k));
        let rest = left.skip(k + 1);
        assert(all.skip(k + 1) =~= rest + seq![separator] + right);
        parts_on_both_sides_are_all_parts(rest, right, separator);
        assert(seq![left.take(k)] + (text::parts(rest, separator) + text::parts(right, separator))
            =~= seq![left.take(k)] + text::parts(rest, separator) + text::parts(
            right,
            separator,
        ));
    } else {
        assert(all[k] == separator);
        text::lemma_run_len(all, p, k);
        assert(all.take(k) =~= left);
        assert(all.skip(k + 1) =~= right);
    }
}

/// A path below another is safe exactly when the other is and no step of it leads upwards; a
/// path from the root of the system is not safe, and neither is a blank one.
pub proof fn paths_are_safe_step_by_step(base: Seq<char>, step: Seq<char>)
    requires
        base.len() > 0,
        !text::is_white(base[0]),
        text::lacks(step, '/'),
    ensures
        config::is_safe_path(base + seq!['/'] + step) <==> config::is_safe_path(base) && step
            != ".."@,
        !config::is_safe_path(seq!['/'] + step),
        text::is_blank(step) ==> !config::is_safe_path(step),
        step.len() > 0 && !text::is_blank(step) ==> (config::is_safe_path(step) <==> step != ".."@),
{
    let whole = base + seq!['/'] + step;
    parts_on_both_sides_are_all_parts(base, step, '/');
    if step.contains('/') {
        let i = choose|i: int| 0 <= i < step.len() && step[i] == '/';
        assert(step[i] != '/');
    }
    text::a_text_without_separator_is_one_part(step, '/');
    let all = text::parts(whole, '/');
    let some = text::parts(base, '/');
    assert(all =~= some.push(step));
    text::blank_means_all_white(whole);
    text::blank_means_all_white(base);
    text::blank_means_all_white(step);
    assert(whole[0] == base[0]);
    if config::is_safe_path(whole) {
        assert forall|i: int| 0 <= i < some.len() implies #[trigger] some[i] != ".."@ by {
            assert(all[i] == some[i]);
        }
        assert(all[some.len() as int] == step);
    }
    if config::is_safe_path(base) && step != ".."@ {
        assert forall|i: int| 0 <= i < all.len() implies #[trigger] all[i] != ".."@ by {
            if i < some.len() {
                assert(all[i] == some[i]);
            }
        }
    }
    let rooted = seq!['/'] + step;
    assert(rooted[0] == '/');
    if step.len() > 0 && step != ".."@ && !text::is_blank(step) {
        assert forall|i: int| 0 <= i < text::parts(step, '/').len() implies #[trigger] text::parts(
            step,
            '/',
        )[i] != ".."@ by {}
        assert(step[0] != '/');
    }
    if step == ".."@ {
        assert(text::parts(step, '/')[0] == ".."@);
    }
}

/// A key of a picture has at most 200 characters; a key below another is one exactly when the
/// other is and the step is a plain name that leads nowhere else; and keys do not start with
/// the place of the digests.
pub proof fn keys_are_sound_step_by_step(base: Seq<char>, step: Seq<char>)
    requires
        text::lacks(step, '/'),
        base.len() > 0,
    ensures
        config::is_asset_key(base + seq!['/'] + step) <==> {
            &&& base.len() + 1 + step.len() <= 200
            &&& config::is_asset_key(base)
            &&& step.len() > 0
            &&& step != "."@
            &&& step != ".."@
            &&& forall|i: int|
                0 <= i < step.len() ==> {
                    let c = #[trigger] step[i];
                    ||| 'a' <= c <= 'z'
                    ||| 'A' <= c <= 'Z'
                    ||| '0' <= c <= '9'
                    ||| c == '.'
                    ||| c == '_'
                    ||| c == '-'
                }
        },
        !config::is_asset_key("sha256"@ + seq!['/'] + step),
{
    let whole = base + seq!['/'] + step;
    parts_on_both_sides_are_all_parts(base, step, '/');
    parts_on_both_sides_are_all_parts("sha256"@, step, '/');
    if step.contains('/') {
        let i = choose|i: int| 0 <= i < step.len() && step[i] == '/';
        assert(step[i] != '/');
    }
    text::a_text_without_separator_is_one_part(step, '/');
    let all = text::parts(whole, '/');
    let some = text::parts(base, '/');
    assert(all =~= some.push(step));
    text::lemma_last_part(base, '/');
    assert(all[0] == some[0]);
    assert(config::all_name_chars(step) <==> (forall|i: int|
        0 <= i < step.len() ==> {
            let c = #[trigger] step[i];
            ||| 'a' <= c <= 'z'
            ||| 'A' <= c <= 'Z'
            ||| '0' <= c <= '9'
            ||| c == '.'
            ||| c == '_'
            ||| c == '-'
        })) by {
        if config::all_name_chars(step) {
            assert forall|i: int| 0 <= i < step.len() implies {
                let c = #[trigger] step[i];
                ||| 'a' <= c <= 'z'
                ||| 'A' <= c <= 'Z'
                ||| '0' <= c <= '9'
                ||| c == '.'
                ||| c == '_'
                ||| c == '-'
            } by {
                assert(config::is_name_char(step[i]));
            }
        }
    }
    if config::is_asset_key(whole) {
        assert forall|i: int| 0 <= i < some.len() implies config::is_key_segment(
            #[trigger] some[i],
        ) by {
            assert(all[i] == some[i]);
        }
        assert(all[some.len() as int] == step);
        assert(config::is_key_segment(step));
    }
    if config::is_asset_key(base) && config::is_key_segment(step) {
        assert forall|i: int| 0 <= i < all.len() implies config::is_key_segment(
            #[trigger] all[i],
        ) by {
            if i < some.len() {
                assert(all[i] == some[i]);
            }
        }
    }
    reveal_strlit("sha256");
    let digests = "sha256"@;
    assert(!digests.contains('/')) by {
        assert(digests[0] == 's' && digests[1] == 'h' && digests[2] == 'a' && digests[3] == '2'
            && digests[4] == '5' && digests[5] == '6');
    }
    text::a_text_without_separator_is_one_part(digests, '/');
    assert((seq![digests] + text::parts(step, '/'))[0] == digests);
}

/// A picture is found below the base address at its key; slashes behind the base do not
/// matter, and without a base there is no address.
pub proof fn pictures_are_found_below_the_base(base: Seq<char>, key: Seq<char>)
    requires
        base.len() > 0,
        base.last() != '/',
        !text::is_blank(base),
    ensures
        config::asset_url(base, key) == Some(base + "/media/"@ + key),
        config::asset_url(base + seq!['/'], key) == Some(base + "/media/"@ + key),
        forall|blank: Seq<char>|
            text::is_blank(blank) ==> #[trigger] config::asset_url(blank, key) is None,
{
    text::lemma_tail_run_len(base, config::slash(), 0);
    assert(base.take(base.len() as int) =~= base);
    let longer = base + seq!['/'];
    assert(longer.last() == '/');
    assert(longer[longer.len() - 2] == base.last());
    text::lemma_tail_run_len(longer, config::slash(), 1);
    assert(longer.take(longer.len() - 1) =~= base);
    text::blank_means_all_white(base);
    text::blank_means_all_white(longer);
    let i = choose|i: int| 0 <= i < base.len() && !text::is_white(#[trigger] base[i]);
    assert(longer[i] == base[i]);
}

/// An address is public exactly when it is an encrypted one of at most 2048 characters that
/// stand for themselves, to a public host, with a path where one is wanted; the host is all
/// up to the first slash.
pub proof fn addresses_are_public_by_their_hosts(host: Seq<char>, path: Seq<char>)
    requires
        text::lacks(host, '/'),
        text::lacks(host, '?'),
        text::lacks(host, '#'),
    ensures
        ({
            let address = "https://"@ + host + seq!['/'] + path;
            &&& config::is_public_https_url(address, true) <==> {
                &&& address.len() <= 2048
                &&& forall|i: int| 0 <= i < address.len() ==> config::is_url_char(#[trigger] address[i])
                &&& config::is_public_authority(host)
            }
            &&& config::is_public_https_url(address, false) <==> config::is_public_https_url(
                address,
                true,
            )
            &&& !config::is_public_https_url("https://"@ + host, true)
        }),
        forall|other: Seq<char>, wanted: bool|
            !"https://"@.is_prefix_of(other) ==> !#[trigger] config::is_public_https_url(
                other,
                wanted,
            ),
{
    let scheme = "https://"@;
    let address = scheme + host + seq!['/'] + path;
    let rest = address.skip(scheme.len() as int);
    assert(scheme.is_prefix_of(address));
    assert(rest =~= host + seq!['/'] + path);
    let k = host.len() as int;
    assert forall|j: int| 0 <= j < k implies config::authority_char()(#[trigger] rest[j]) by {
        assert(rest[j] == host[j]);
    }
    assert(rest[k] == '/');
    text::lemma_run_len(rest, config::authority_char(), k);
    assert(rest.take(k) =~= host);
    let short = scheme + host;
    let bare = short.skip(scheme.len() as int);
    assert(bare =~= host);
    assert forall|j: int| 0 <= j < k implies config::authority_char()(#[trigger] bare[j]) by {
        assert(bare[j] == host[j]);
    }
    text::lemma_run_len(bare, config::authority_char(), k);
}

/// The characters of an address are the printable ones without those that quote, group or
/// delimit.
pub proof fn characters_of_addresses_stand_for_themselves(c: char)
    ensures
        config::is_url_char(c) <==> {
            ||| 'a' <= c <= 'z'
            ||| 'A' <= c <= 'Z'
            ||| '0' <= c <= '9'
            ||| c == '!'
            ||| c == '#'
            ||| c == '$'
            ||| c == '%'
            ||| c == '&'
            ||| c == '*'
            ||| c == '+'
            ||| c == ','
            ||| c == '-'
            ||| c == '.'
            ||| c == '/'
            ||| c == ':'
            ||| c == ';'
            ||| c == '='
            ||| c == '?'
            ||| c == '@'
            ||| c == '_'
            ||| c == '~'
        },
{
}

/// A host is public when it has two names or more, each of at most 63 letters, digits and
/// inner hyphens, and the last starts with a letter and is not that of the machine itself.
pub proof fn hosts_are_public_by_their_names(first: Seq<char>, last: Seq<char>)
    requires
        text::lacks(first, '.'),
        text::lacks(last, '.'),
    ensures
        config::is_public_host(first + seq!['.'] + last) <==> {
            &&& config::is_label(first)
            &&& config::is_label(last)
            &&& 'a' <= last[0] <= 'z' || 'A' <= last[0] <= 'Z'
            &&& text::lowered(last) != "localhost"@
        },
        !config::is_public_host(first),
        config::is_label(first) <==> {
            &&& 1 <= first.len() <= 63
            &&& first[0] != '-'
            &&& first.last() != '-'
            &&& forall|i: int|
                0 <= i < first.len() ==> {
                    let c = #[trigger] first[i];
                    ||| 'a' <= c <= 'z'
                    ||| 'A' <= c <= 'Z'
                    ||| '0' <= c <= '9'
                    ||| c == '-'
                }
        },
{
    let host = first + seq!['.'] + last;
    parts_on_both_sides_are_all_parts(first, last, '.');
    if first.contains('.') {
        let i = choose|i: int| 0 <= i < first.len() && first[i] == '.';
        assert(first[i] != '.');
    }
    if last.contains('.') {
        let i = choose|i: int| 0 <= i < last.len() && last[i] == '.';
        assert(last[i] != '.');
    }
    text::a_text_without_separator_is_one_part(first, '.');
    text::a_text_without_separator_is_one_part(last, '.');
    let labels = text::parts(host, '.');
    assert(labels =~= seq![first, last]);
    if config::is_public_host(host) {
        assert(config::is_label(labels[0]) && config::is_label(labels[1]));
    }
    if config::is_label(first) {
        assert forall|i: int| 0 <= i < first.len() implies {
            let c = #[trigger] first[i];
            ||| 'a' <= c <= 'z'
            ||| 'A' <= c <= 'Z'
            ||| '0' <= c <= '9'
            ||| c == '-'
        } by {
            assert(text::is_alphanumeric(first[i]) || first[i] == '-');
        }
    }
}

/// A port is a number from 1 to 65535 behind the host.
pub proof fn ports_stand_behind_the_host(host: Seq<char>, port: nat)
    requires
        text::lacks(host, ':'),
    ensures
        config::is_public_authority(host) <==> config::is_public_host(host),
        config::is_public_authority(host + seq![':'] + text::decimal(port)) <==> {
            &&& config::is_public_host(host)
            &&& 1 <= port <= 65535
        },
        !config::is_public_authority(host + seq![':']),
{
    let p = text::other_than(':');
    let k = host.len() as int;
    assert forall|j: int| 0 <= j < k implies p(#[trigger] host[j]) by {}
    text::lemma_run_len(host, p, k);
    assert(host.take(k) =~= host);
    let with = host + seq![':'] + text::decimal(port);
    assert forall|j: int| 0 <= j < k implies p(#[trigger] with[j]) by {
        assert(with[j] == host[j]);
    }
    assert(with[k] == ':');
    text::lemma_run_len(with, p, k);
    assert(with.take(k) =~= host);
    assert(with.skip(k + 1) =~= text::decimal(port));
    text::numbers_are_read_as_they_are_written(port, port);
    let without = host + seq![':'];
    assert forall|j: int| 0 <= j < k implies p(#[trigger] without[j]) by {
        assert(without[j] == host[j]);
    }
    assert(without[k] == ':');
    text::lemma_run_len(without, p, k);
    assert(without.skip(k + 1).len() == 0);
}

/// Pictures with addresses and pictures sent along are shown in the direct mode, pictures by
/// key below the base in the remote mode, and nothing where pictures are switched off.
pub proof fn pictures_are_shown_in_their_own_mode(picture: Picture, config: IllustrationConfig)
    ensures
        ({
            let resolved = message::resolution(picture, config);
            let direct = config.mode == IllustrationMode::Direct;
            &&& !config.enabled ==> resolved is None
            &&& config.enabled ==> match picture.source {
                Source::DirectHttps(url) => resolved == (if direct {
                    Some(Resolved::Url(url))
                } else {
                    None
                }),
                Source::InlineImage(bytes) => resolved == (if direct {
                    Some(Resolved::InlineImage(bytes))
                } else {
                    None
                }),
                Source::RemoteAsset(key) => resolved == (if !direct && !text::is_blank(
                    config.remote_base_url@,
                ) {
                    Some(
                        Resolved::Url(
                            config::without_slashes(config.remote_base_url@) + "/media/"@ + key,
                        ),
                    )
                } else {
                    None
                }),
            }
        }),
{
}

/// A reply is marked or plain as is set for its protocol. In the official protocol a picture
/// with an address stands within the marked text; in OneBot every picture is a part of its
/// own behind the text.
pub proof fn replies_are_marked_as_is_set(
    document: Document,
    messages: MessageConfig,
    illustrations: IllustrationConfig,
)
    ensures
        ({
            let picture = match document.illustration {
                Some(picture) => message::resolution(picture, illustrations),
                None => None,
            };
            let plain = text::joined(message::text_lines(document), "\n"@);
            let marked = text::joined(message::markdown_lines(document, None), "\n"@);
            let official = message::reply(
                Protocol::QqOfficial,
                document,
                messages,
                illustrations,
            );
            let onebot = message::reply(Protocol::OneBot11, document, messages, illustrations);
            &&& !messages.qq_official_markdown ==> official == Reply::Text(plain)
            &&& messages.qq_official_markdown ==> official == Reply::Rich(
                "["@ + message::segment(
                    "markdown"@,
                    "content"@,
                    match picture {
                        Some(Resolved::Url(url)) => text::joined(
                            message::markdown_lines(document, Some(url)),
                            "\n"@,
                        ),
                        _ => marked,
                    },
                ) + "]"@,
            )
            &&& picture is None && !messages.onebot_markdown ==> onebot == Reply::Text(plain)
            &&& picture is None && messages.onebot_markdown ==> onebot == Reply::Rich(
                "["@ + message::segment("markdown"@, "content"@, marked) + "]"@,
            )
            &&& picture is Some ==> onebot == Reply::Rich(
                "["@ + (if messages.onebot_markdown {
                    message::segment("markdown"@, "content"@, marked)
                } else {
                    message::segment("text"@, "text"@, plain)
                }) + ","@ + message::segment(
                    "image"@,
                    "file"@,
                    match picture->0 {
                        Resolved::Url(url) => url,
                        Resolved::InlineImage(bytes) => "base64://"@ + outside::base64_standard(
                            bytes,
                        ),
                    },
                ) + "]"@,
            )
        }),
        forall|kind: Seq<char>, field: Seq<char>, value: Seq<char>| #[trigger]
            message::segment(kind, field, value) == "{\"data\":{\""@ + field + "\":"@
                + outside::json_string(value) + "},\"type\":\""@ + kind + "\"}"@,
{
}

/// A picture of the catalogue is the file of the game where it is there, in the direct mode,
/// or else its address; in the remote mode it is its key. It is described and sized as the
/// catalogue says.
pub proof fn pictures_of_the_catalogue_are_files_before_addresses(
    mode: IllustrationMode,
    files: Map<Seq<char>, Seq<u8>>,
    kind: Seq<char>,
    name: Seq<char>,
    role: Seq<char>,
)
    ensures
        ({
            let found = catalog::embedded_binding(kind, name, role);
            let shown = game::asset_picture(mode, files, kind, name, role);
            &&& found is None ==> shown is None
            &&& shown is Some ==> {
                &&& found is Some
                &&& (shown->0).alt == (found->0).alt
                &&& (shown->0).width == (found->0).display.width
                &&& (shown->0).height == (found->0).display.height
                &&& match (shown->0).source {
                    Source::InlineImage(bytes) => mode == IllustrationMode::Direct
                        && files.contains_pair((found->0).asset_key, bytes),
                    Source::DirectHttps(url) => mode == IllustrationMode::Direct && (
                    found->0).direct_url == Some(url),
                    Source::RemoteAsset(key) => mode == IllustrationMode::Remote && (
                    found->0).asset_key == key,
                }
            }
            &&& mode == IllustrationMode::Direct && found is Some && files.contains_key(
                (found->0).asset_key,
            ) && message::bytes_error(files[(found->0).asset_key]) is None
                && message::metadata_error(
                (found->0).alt,
                (found->0).display.width,
                (found->0).display.height,
            ) is None ==> shown is Some && (shown->0).source is InlineImage
        }),
{
}

/// Each kind of subject has one kind of picture: maps a cover, spirits a portrait, beasts a
/// scene of battle, and rings an icon.
pub proof fn subjects_have_their_own_kind_of_picture(kind: Seq<char>)
    ensures
        kind == "map"@ ==> catalog::role_of(kind) == Some("cover"@),
        kind == "wuhun"@ ==> catalog::role_of(kind) == Some("portrait"@),
        kind == "soul_beast"@ ==> catalog::role_of(kind) == Some("battle"@),
        kind == "soul_ring"@ ==> catalog::role_of(kind) == Some("icon"@),
        kind != "map"@ && kind != "wuhun"@ && kind != "soul_beast"@ && kind != "soul_ring"@
            ==> catalog::role_of(kind) is None,
{
    reveal_strlit("map");
    reveal_strlit("wuhun");
    reveal_strlit("soul_beast");
    reveal_strlit("soul_ring");
    assert("map"@.len() == 3 && "wuhun"@.len() == 5 && "soul_beast"@.len() == 10
        && "soul_ring"@.len() == 9);
}

/// A catalogue is sound only if it has the present version and nineteen entries, each of a
/// known kind with the picture of its kind, a name and a description of at most 80 printable
/// characters, a sound key, a sound size and no picture of its own; five maps, five spirits,
/// two beasts and seven rings; and no subject and no key twice.
pub proof fn sound_catalogues_are_complete_and_unambiguous(
    version: u16,
    bindings: Seq<Binding>,
    i: int,
    j: int,
)
    requires
        catalog::manifest_error((version, bindings)) is None,
        0 <= i < bindings.len(),
        0 <= j < bindings.len(),
    ensures
        version == 1,
        bindings.len() == 19,
        catalog::kind_count(bindings, "map"@) == 5,
        catalog::kind_count(bindings, "wuhun"@) == 5,
        catalog::kind_count(bindings, "soul_beast"@) == 2,
        catalog::kind_count(bindings, "soul_ring"@) == 7,
        catalog::role_of(bindings[i].entity_type) == Some(bindings[i].media_role),
        !text::is_blank(bindings[i].entity_key) && bindings[i].entity_key.len() <= 80,
        !text::is_blank(bindings[i].alt) && bindings[i].alt.len() <= 80,
        config::is_asset_key(bindings[i].asset_key),
        bindings[i].distribution == "not_bundled"@,
        1 <= bindings[i].display.width <= 4096,
        1 <= bindings[i].display.height <= 4096,
        bindings[i].asset_key == bindings[j].asset_key ==> i == j,
        bindings[i].entity_type == bindings[j].entity_type && bindings[i].entity_key
            == bindings[j].entity_key && bindings[i].media_role == bindings[j].media_role ==> i
            == j,
{
    lemma_sound_bindings(bindings, i);
    if i < j {
        catalog::valid_bindings_are_unambiguous(bindings, i, j);
    } else if j < i {
        catalog::valid_bindings_are_unambiguous(bindings, j, i);
    }
}

proof fn lemma_sound_bindings(bindings: Seq<Binding>, i: int)
    requires
        catalog::bindings_error(bindings) is None,
        0 <= i < bindings.len(),
    ensures
        catalog::role_of(bindings[i].entity_type) == Some(bindings[i].media_role),
        !text::is_blank(bindings[i].entity_key) && bindings[i].entity_key.len() <= 80,
        !text::is_blank(bindings[i].alt) && bindings[i].alt.len() <= 80,
        config::is_asset_key(bindings[i].asset_key),
        bindings[i].distribution == "not_bundled"@,
        1 <= bindings[i].display.width <= 4096,
        1 <= bindings[i].display.height <= 4096,
    decreases bindings.len(),
{
    if i < bindings.len() - 1 {
        lemma_sound_bindings(bindings.drop_last(), i);
    }
}

/// An entry is found by its kind, its name and the role of its picture, all three.
pub proof fn entries_are_found_by_all_they_are_named_by(
    bindings: Seq<Binding>,
    kind: Seq<char>,
    name: Seq<char>,
    role: Seq<char>,
)
    ensures
        catalog::find_binding(bindings, kind, name, role) matches Some(found) ==> {
            &&& bindings.contains(found)
            &&& found.entity_type == kind
            &&& found.entity_key == name
            &&& found.media_role == role
        },
        catalog::find_binding(bindings, kind, name, role) is None ==> forall|i: int|
            #![trigger bindings[i]]
            0 <= i < bindings.len() ==> !(bindings[i].entity_type == kind && bindings[i].entity_key
                == name && bindings[i].media_role == role),
    decreases bindings.len(),
{
    if bindings.len() > 0 {
        let rest = bindings.skip(1);
        entries_are_found_by_all_they_are_named_by(rest, kind, name, role);
        if let Some(found) = catalog::find_binding(rest, kind, name, role) {
            if rest.contains(found) {
                let i = choose|i: int| 0 <= i < rest.len() && rest[i] == found;
                assert(bindings[i + 1] == found);
            }
        }
        assert(bindings[0] == bindings.first());
        if catalog::find_binding(bindings, kind, name, role) is None {
            assert forall|i: int| #![trigger bindings[i]] 0 <= i < bindings.len() implies !(
            bindings[i].entity_type == kind && bindings[i].entity_key == name
                && bindings[i].media_role == role) by {
                if i > 0 {
                    assert(rest[i - 1] == bindings[i]);
                }
            }
        }
    }
}

/// The menu has six pages: how to start, the character, the world, things and people, quests,
/// and battles; each shows its own title and number, and its commands in order.
pub proof fn the_menu_has_its_six_pages(page: int, picture: Option<Picture>)
    requires
        0 <= page < 6,
    ensures
        menu::menu(page, picture).title == "斗罗系统 · "@ + (if page == 0 {
            "开始游戏"@
        } else if page == 1 {
            "角色成长"@
        } else if page == 2 {
            "世界探索"@
        } else if page == 3 {
            "NPC 与物品"@
        } else if page == 4 {
            "任务与成长"@
        } else {
            "魂兽战斗"@
        }),
        menu::page_key(0) == "开始"@,
        menu::page_key(1) == "角色"@,
        menu::page_key(2) == "世界"@,
        menu::page_key(3) == "经济"@,
        menu::page_key(4) == "任务"@,
        menu::page_key(5) == "战斗"@,
        menu::menu(page, picture).fields == seq![
            ("分类"@, menu::page_title(page)),
            ("页码"@, text::decimal((page + 1) as nat) + " / "@ + text::decimal(6)),
        ],
        menu::menu(page, picture).illustration == picture,
        menu::page_entries(0).len() == 1,
        menu::page_entries(1).len() == 10,
        menu::page_entries(2).len() == 6,
        menu::page_entries(3).len() == 9,
        menu::page_entries(4).len() == 5,
        menu::page_entries(5).len() == 7,
{
    let d = message::titled("斗罗系统 · "@ + menu::page_title(page)).line(
        "欢迎来到斗罗大陆。先创建角色，再觉醒属于你的武魂。"@,
    ).field("分类"@, menu::page_title(page)).field(
        "页码"@,
        text::decimal((page + 1) as nat) + " / "@ + text::decimal(6),
    );
    lemma_entries_keep(d, menu::page_entries(page));
    assert(d.fields =~= seq![
        ("分类"@, menu::page_title(page)),
        ("页码"@, text::decimal((page + 1) as nat) + " / "@ + text::decimal(6)),
    ]);
}

proof fn lemma_entries_keep(d: Document, entries: Seq<(Seq<char>, Seq<char>)>)
    ensures
        menu::with_entries(d, entries).title == d.title,
        menu::with_entries(d, entries).fields == d.fields,
        menu::with_entries(d, entries).illustration == d.illustration,
    decreases entries.len(),
{
    if entries.len() > 0 {
        lemma_entries_keep(d, entries.drop_last());
    }
}

/// The pictures of the game, one by one: what each shows, under which key it is kept, how it
/// is described, and how large it is shown.
pub proof fn these_are_the_pictures_of_the_game()
    ensures
        catalog::embedded_bindings().len() == 19,
        ({
            let entry = catalog::embedded_bindings()[0];
            &&& entry.entity_type == "map"@ && entry.entity_key == "圣魂村"@
            &&& entry.media_role == "cover"@
            &&& entry.asset_key == "maps/holy-soul-village/cover.webp"@
            &&& entry.alt == "圣魂村地图"@
            &&& entry.display.width == 640 && entry.display.height == 360
            &&& entry.distribution == "not_bundled"@ && entry.direct_url is None
            &&& catalog::expected_asset_keys()[0] == entry.asset_key
        }),
        ({
            let entry = catalog::embedded_bindings()[1];
            &&& entry.entity_type == "map"@ && entry.entity_key == "天斗帝国主城"@
            &&& entry.media_role == "cover"@
            &&& entry.asset_key == "maps/tiandou-imperial-city/cover.webp"@
            &&& entry.alt == "天斗帝国主城地图"@
            &&& entry.display.width == 640 && entry.display.height == 360
            &&& entry.distribution == "not_bundled"@ && entry.direct_url is None
            &&& catalog::expected_asset_keys()[1] == entry.asset_key
        }),
        ({
            let entry = catalog::embedded_bindings()[2];
            &&& entry.entity_type == "map"@ && entry.entity_key == "新手村"@
            &&& entry.media_role == "cover"@
            &&& entry.asset_key == "maps/novice-village/cover.webp"@
            &&& entry.alt == "新手村地图"@
            &&& entry.display.width == 640 && entry.display.height == 360
            &&& entry.distribution == "not_bundled"@ && entry.direct_url is None
            &&& catalog::expected_asset_keys()[2] == entry.asset_key
        }),
        ({
            let entry = catalog::embedded_bindings()[3];
            &&& entry.entity_type == "map"@ && entry.entity_key == "落日森林"@
            &&& entry.media_role == "cover"@
            &&& entry.asset_key == "maps/sunset-forest/cover.webp"@
            &&& entry.alt == "落日森林地图"@
            &&& entry.display.width == 640 && entry.display.height == 360
            &&& entry.distribution == "not_bundled"@ && entry.direct_url is None
            &&& catalog::expected_asset_keys()[3] == entry.asset_key
        }),
        ({
            let entry = catalog::embedded_bindings()[4];
            &&& entry.entity_type == "map"@ && entry.entity_key == "西尔维斯"@
            &&& entry.media_role == "cover"@
            &&& entry.asset_key == "maps/silves/cover.webp"@
            &&& entry.alt == "西尔维斯地图"@
            &&& entry.display.width == 640 && entry.display.height == 360
            &&& entry.distribution == "not_bundled"@ && entry.direct_url is None
            &&& catalog::expected_asset_keys()[4] == entry.asset_key
        }),
        ({
            let entry = catalog::embedded_bindings()[5];
            &&& entry.entity_type == "wuhun"@ && entry.entity_key == "独狼"@
            &&& entry.media_role == "portrait"@
            &&& entry.asset_key == "wuhun/lone-wolf/portrait.webp"@
            &&& entry.alt == "独狼武魂"@
            &&& entry.display.width == 640 && entry.display.height == 640
            &&& entry.distribution == "not_bundled"@ && entry.direct_url is None
            &&& catalog::expected_asset_keys()[5] == entry.asset_key
        }),
        ({
            let entry = catalog::embedded_bindings()[6];
            &&& entry.entity_type == "wuhun"@ && entry.entity_key == "胡萝卜"@
            &&& entry.media_role == "portrait"@
            &&& entry.asset_key == "wuhun/carrot/portrait.webp"@
            &&& entry.alt == "胡萝卜武魂"@
            &&& entry.display.width == 640 && entry.display.height == 640
            &&& entry.distribution == "not_bundled"@ && entry.direct_url is None
            &&& catalog::expected_asset_keys()[6] == entry.asset_key
        }),
        ({
            let entry = catalog::embedded_bindings()[7];
            &&& entry.entity_type == "wuhun"@ && entry.entity_key == "镰刀"@
            &&& entry.media_role == "portrait"@
            &&& entry.asset_key == "wuhun/sickle/portrait.webp"@
            &&& entry.alt == "镰刀武魂"@
            &&& entry.display.width == 640 && entry.display.height == 640
            &&& entry.distribution == "not_bundled"@ && entry.direct_url is None
            &&& catalog::expected_asset_keys()[7] == entry.asset_key
        }),
        ({
            let entry = catalog::embedded_bindings()[8];
            &&& entry.entity_type == "wuhun"@ && entry.entity_key == "面包"@
            &&& entry.media_role == "portrait"@
            &&& entry.asset_key == "wuhun/bread/portrait.webp"@
            &&& entry.alt == "面包武魂"@
            &&& entry.display.width == 640 && entry.display.height == 640
            &&& entry.distribution == "not_bundled"@ && entry.direct_url is None
            &&& catalog::expected_asset_keys()[8] == entry.asset_key
        }),
        ({
            let entry = catalog::embedded_bindings()[9];
            &&& entry.entity_type == "wuhun"@ && entry.entity_key == "龙神血脉"@
            &&& entry.media_role == "portrait"@
            &&& entry.asset_key == "wuhun/dragon-god-bloodline/portrait.webp"@
            &&& entry.alt == "龙神血脉武魂"@
            &&& entry.display.width == 640 && entry.display.height == 640
            &&& entry.distribution == "not_bundled"@ && entry.direct_url is None
            &&& catalog::expected_asset_keys()[9] == entry.asset_key
        }),
        ({
            let entry = catalog::embedded_bindings()[10];
            &&& entry.entity_type == "soul_beast"@ && entry.entity_key == "史莱姆"@
            &&& entry.media_role == "battle"@
            &&& entry.asset_key == "soul-beasts/slime/battle.webp"@
            &&& entry.alt == "史莱姆"@
            &&& entry.display.width == 640 && entry.display.height == 640
            &&& entry.distribution == "not_bundled"@ && entry.direct_url is None
            &&& catalog::expected_asset_keys()[10] == entry.asset_key
        }),
        ({
            let entry = catalog::embedded_bindings()[11];
            &&& entry.entity_type == "soul_beast"@ && entry.entity_key == "哥布林"@
            &&& entry.media_role == "battle"@
            &&& entry.asset_key == "soul-beasts/goblin/battle.webp"@
            &&& entry.alt == "哥布林"@
            &&& entry.display.width == 640 && entry.display.height == 640
            &&& entry.distribution == "not_bundled"@ && entry.direct_url is None
            &&& catalog::expected_asset_keys()[11] == entry.asset_key
        }),
        ({
            let entry = catalog::embedded_bindings()[12];
            &&& entry.entity_type == "soul_ring"@ && entry.entity_key == "white"@
            &&& entry.media_role == "icon"@
            &&& entry.asset_key == "soul-rings/white/icon.webp"@
            &&& entry.alt == "白色魂环"@
            &&& entry.display.width == 256 && entry.display.height == 256
            &&& entry.distribution == "not_bundled"@ && entry.direct_url is None
            &&& catalog::expected_asset_keys()[12] == entry.asset_key
        }),
        ({
            let entry = catalog::embedded_bindings()[13];
            &&& entry.entity_type == "soul_ring"@ && entry.entity_key == "yellow"@
            &&& entry.media_role == "icon"@
            &&& entry.asset_key == "soul-rings/yellow/icon.webp"@
            &&& entry.alt == "黄色魂环"@
            &&& entry.display.width == 256 && entry.display.height == 256
            &&& entry.distribution == "not_bundled"@ && entry.direct_url is None
            &&& catalog::expected_asset_keys()[13] == entry.asset_key
        }),
        ({
            let entry = catalog::embedded_bindings()[14];
            &&& entry.entity_type == "soul_ring"@ && entry.entity_key == "purple"@
            &&& entry.media_role == "icon"@
            &&& entry.asset_key == "soul-rings/purple/icon.webp"@
            &&& entry.alt == "紫色魂环"@
            &&& entry.display.width == 256 && entry.display.height == 256
            &&& entry.distribution == "not_bundled"@ && entry.direct_url is None
            &&& catalog::expected_asset_keys()[14] == entry.asset_key
        }),
        ({
            let entry = catalog::embedded_bindings()[15];
            &&& entry.entity_type == "soul_ring"@ && entry.entity_key == "black"@
            &&& entry.media_role == "icon"@
            &&& entry.asset_key == "soul-rings/black/icon.webp"@
            &&& entry.alt == "黑色魂环"@
            &&& entry.display.width == 256 && entry.display.height == 256
            &&& entry.distribution == "not_bundled"@ && entry.direct_url is None
            &&& catalog::expected_asset_keys()[15] == entry.asset_key
        }),
        ({
            let entry = catalog::embedded_bindings()[16];
            &&& entry.entity_type == "soul_ring"@ && entry.entity_key == "red"@
            &&& entry.media_role == "icon"@
            &&& entry.asset_key == "soul-rings/red/icon.webp"@
            &&& entry.alt == "红色魂环"@
            &&& entry.display.width == 256 && entry.display.height == 256
            &&& entry.distribution == "not_bundled"@ && entry.direct_url is None
            &&& catalog::expected_asset_keys()[16] == entry.asset_key
        }),
        ({
            let entry = catalog::embedded_bindings()[17];
            &&& entry.entity_type == "soul_ring"@ && entry.entity_key == "orange"@
            &&& entry.media_role == "icon"@
            &&& entry.asset_key == "soul-rings/orange/icon.webp"@
            &&& entry.alt == "橙色魂环"@
            &&& entry.display.width == 256 && entry.display.height == 256
            &&& entry.distribution == "not_bundled"@ && entry.direct_url is None
            &&& catalog::expected_asset_keys()[17] == entry.asset_key
        }),
        ({
            let entry = catalog::embedded_bindings()[18];
            &&& entry.entity_type == "soul_ring"@ && entry.entity_key == "gold"@
            &&& entry.media_role == "icon"@
            &&& entry.asset_key == "soul-rings/gold/icon.webp"@
            &&& entry.alt == "金色魂环"@
            &&& entry.display.width == 256 && entry.display.height == 256
            &&& entry.distribution == "not_bundled"@ && entry.direct_url is None
            &&& catalog::expected_asset_keys()[18] == entry.asset_key
        }),
{
}

/// The menu explains its commands one by one.
pub proof fn the_menu_explains_its_commands()
    ensures
        menu::page_entries(0)[0] == (
            "开始穿越 <角色名> <男|女>"@,
            "创建你的斗罗大陆角色"@,
        ),
        menu::page_entries(1)[0] == (
            "武魂觉醒"@,
            "觉醒第一武魂"@,
        ),
        menu::page_entries(1)[1] == (
            "开武魂"@,
            "开启当前武魂并进入战斗形态"@,
        ),
        menu::page_entries(1)[2] == (
            "关武魂"@,
            "关闭当前武魂并退出战斗形态"@,
        ),
        menu::page_entries(1)[3] == (
            "状态"@,
            "查看角色属性、武魂和位置"@,
        ),
        menu::page_entries(1)[4] == (
            "技能"@,
            "查看已学习魂技和魂力消耗"@,
        ),
        menu::page_entries(1)[5] == (
            "装备魂技 <魂技>"@,
            "装备已学习魂技并加入战斗可用列表"@,
        ),
        menu::page_entries(1)[6] == (
            "卸下魂技 <魂技>"@,
            "卸下已装备魂技，至少保留一个可用魂技"@,
        ),
        menu::page_entries(1)[7] == (
            "魂环"@,
            "查看已吸收魂环和待吸收魂环"@,
        ),
        menu::page_entries(1)[8] == (
            "签到"@,
            "领取每日经验和金魂币"@,
        ),
        menu::page_entries(1)[9] == (
            "钱包"@,
            "查看金魂币余额"@,
        ),
        menu::page_entries(2)[0] == (
            "位置"@,
            "查看当前地图、出口和区域信息"@,
        ),
        menu::page_entries(2)[1] == (
            "地图列表 [页码]"@,
            "分页查看地图和等级要求"@,
        ),
        menu::page_entries(2)[2] == (
            "向 <上|下|左|右>"@,
            "沿当前地图出口移动"@,
        ),
        menu::page_entries(2)[3] == (
            "传送 [地图]"@,
            "从传送阵前往可达地图"@,
        ),
        menu::page_entries(2)[4] == (
            "掉落 [页码]"@,
            "查看当前地图可拾取的地面掉落"@,
        ),
        menu::page_entries(2)[5] == (
            "拾取 <掉落ID>"@,
            "拾取当前地图的一整堆物品"@,
        ),
        menu::page_entries(3)[0] == (
            "NPC"@,
            "查看当前地图的 NPC"@,
        ),
        menu::page_entries(3)[1] == (
            "对话 <NPC>"@,
            "与当前地图的 NPC 对话"@,
        ),
        menu::page_entries(3)[2] == (
            "商店 [页码]"@,
            "查看已对话商人的商品"@,
        ),
        menu::page_entries(3)[3] == (
            "背包 [页码]"@,
            "查看随身物品"@,
        ),
        menu::page_entries(3)[4] == (
            "购买 <物品> [数量]"@,
            "从当前商店购买物品"@,
        ),
        menu::page_entries(3)[5] == (
            "出售 <物品> [数量]"@,
            "向当前商店出售物品"@,
        ),
        menu::page_entries(3)[6] == (
            "使用 <物品>"@,
            "使用背包中的消耗品"@,
        ),
        menu::page_entries(3)[7] == (
            "转账 <用户ID> <金额>"@,
            "向同一 Bot 身份域的玩家转账"@,
        ),
        menu::page_entries(3)[8] == (
            "发送物品 <用户ID> <物品> [数量]"@,
            "向同一 Bot 身份域的玩家赠送物品"@,
        ),
        menu::page_entries(4)[0] == (
            "任务 [页码]"@,
            "查看当前地图可接取的任务"@,
        ),
        menu::page_entries(4)[1] == (
            "接取任务 <任务>"@,
            "接取一项可用任务"@,
        ),
        menu::page_entries(4)[2] == (
            "任务进度 [任务]"@,
            "查看进行中的任务进度"@,
        ),
        menu::page_entries(4)[3] == (
            "提交任务 <任务>"@,
            "提交已完成任务并领取奖励"@,
        ),
        menu::page_entries(4)[4] == (
            "放弃任务 <任务>"@,
            "放弃进行中的任务"@,
        ),
        menu::page_entries(5)[0] == (
            "魂兽 [页码]"@,
            "查看当前地图可挑战的魂兽"@,
        ),
        menu::page_entries(5)[1] == (
            "挑战 <魂兽>"@,
            "发起一场魂兽挑战"@,
        ),
        menu::page_entries(5)[2] == (
            "攻击"@,
            "按武魂修正进行普通攻击并承受魂兽反击"@,
        ),
        menu::page_entries(5)[3] == (
            "吸收魂环 <魂兽>"@,
            "吸收击杀魂兽留下的魂环并解锁魂技"@,
        ),
        menu::page_entries(5)[4] == (
            "逃跑"@,
            "尝试结束当前战斗"@,
        ),
        menu::page_entries(5)[5] == (
            "战斗状态"@,
            "查看当前战斗快照"@,
        ),
        menu::page_entries(5)[6] == (
            "战斗日志"@,
            "查看最近战斗事件"@,
        ),
{
}

} // verus!
