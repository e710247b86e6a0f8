//! Local pictures that wait until the official QQ adapter has sent the main reply.
use crate::config::IllustrationConfig;
use crate::event;
use crate::event::{first, read_qq_event, QqEvent};
use crate::host::{CommandRequest, InterceptorRequest};
use crate::identity;
use crate::message;
use crate::message::{qq_official_direct_inline_image, qq_official_inline_image_segments, GameDocument};
use crate::text;
use crate::text::{any_control, is_trimmed, same};
use vstd::prelude::*;
use vstd::string::*;

verus! {

/// How many pictures can wait.
pub const MAX_PENDING_QQ_INLINE_IMAGES: usize = 8;

/// Where a picture goes.
#[derive(Clone, Debug, PartialEq, Eq)]
pub enum QqMediaTarget {
    Group(String),
    Private(String),
}

/// The mathematical form of a target.
pub enum Target {
    Group(Seq<char>),
    Private(Seq<char>),
}

impl View for QqMediaTarget {
    type V = Target;

    open spec fn view(&self) -> Target {
        match self {
            QqMediaTarget::Group(id) => Target::Group(id@),
            QqMediaTarget::Private(id) => Target::Private(id@),
        }
    }
}

/// What ties a waiting picture to the message that it answers.
#[derive(Clone, Debug, PartialEq, Eq)]
pub struct PendingQqInlineImageKey {
    pub account_id: String,
    pub message_id: String,
    pub sender_id: String,
    pub target: QqMediaTarget,
}

/// The mathematical form of a key.
pub struct PictureKey {
    pub account_id: Seq<char>,
    pub message_id: Seq<char>,
    pub sender_id: Seq<char>,
    pub target: Target,
}

impl View for PendingQqInlineImageKey {
    type V = PictureKey;

    open spec fn view(&self) -> PictureKey {
        PictureKey {
            account_id: self.account_id@,
            message_id: self.message_id@,
            sender_id: self.sender_id@,
            target: self.target@,
        }
    }
}

/// A waiting picture.
#[derive(Clone, Debug, PartialEq, Eq)]
pub struct PendingQqInlineImage {
    pub key: PendingQqInlineImageKey,
    pub bytes: Vec<u8>,
}

impl View for PendingQqInlineImage {
    type V = (PictureKey, Seq<u8>);

    open spec fn view(&self) -> (PictureKey, Seq<u8>) {
        (self.key@, self.bytes@)
    }
}

/// The pictures that wait, the oldest first.
pub struct PendingImages {
    entries: Vec<PendingQqInlineImage>,
}

impl View for PendingImages {
    type V = Seq<(PictureKey, Seq<u8>)>;

    closed spec fn view(&self) -> Seq<(PictureKey, Seq<u8>)> {
        Seq::new(self.entries@.len(), |i: int| self.entries@[i]@)
    }
}

/// The entries with another key.
pub open spec fn without(
    entries: Seq<(PictureKey, Seq<u8>)>,
    key: PictureKey,
) -> Seq<(PictureKey, Seq<u8>)>
    decreases entries.len(),
{
    if entries.len() == 0 {
        Seq::empty()
    } else {
        let earlier = without(entries.drop_last(), key);
        if entries.last().0 == key {
            earlier
        } else {
            earlier.push(entries.last())
        }
    }
}

/// The last seven entries.
pub open spec fn newest(entries: Seq<(PictureKey, Seq<u8>)>) -> Seq<(PictureKey, Seq<u8>)> {
    if entries.len() >= MAX_PENDING_QQ_INLINE_IMAGES {
        entries.skip(entries.len() - (MAX_PENDING_QQ_INLINE_IMAGES - 1))
    } else {
        entries
    }
}

/// The entries after a picture joined them: it replaces one with its key and, where
/// there would be too many, displaces the oldest.
pub open spec fn staged(
    entries: Seq<(PictureKey, Seq<u8>)>,
    key: PictureKey,
    bytes: Seq<u8>,
) -> Seq<(PictureKey, Seq<u8>)> {
    newest(without(entries, key)).push((key, bytes))
}

/// The index of the first entry with a key, or the length.
pub open spec fn position(entries: Seq<(PictureKey, Seq<u8>)>, key: PictureKey) -> int
    decreases entries.len(),
{
    if entries.len() == 0 || entries[0].0 == key {
        0
    } else {
        1 + position(entries.skip(1), key)
    }
}

proof fn lemma_position(entries: Seq<(PictureKey, Seq<u8>)>, key: PictureKey, k: int)
    requires
        0 <= k <= entries.len(),
        forall|j: int| 0 <= j < k ==> #[trigger] entries[j].0 != key,
        k < entries.len() ==> entries[k].0 == key,
    ensures
        position(entries, key) == k,
    decreases k,
{
    if k > 0 {
        assert(entries[0].0 != key);
        assert forall|j: int| 0 <= j < k - 1 implies #[trigger] entries.skip(1)[j].0 != key by {
            assert(entries.skip(1)[j] == entries[j + 1]);
        }
        lemma_position(entries.skip(1), key, k - 1);
    }
}

proof fn lemma_without(entries: Seq<(PictureKey, Seq<u8>)>, key: PictureKey)
    ensures
        without(entries, key).len() <= entries.len(),
        forall|i: int| 0 <= i < without(entries, key).len() ==> #[trigger] without(
            entries,
            key,
        )[i].0 != key,
    decreases entries.len(),
{
    if entries.len() > 0 {
        lemma_without(entries.drop_last(), key);
    }
}

/// Never more than eight pictures wait.
pub proof fn pending_pictures_are_bounded(
    entries: Seq<(PictureKey, Seq<u8>)>,
    key: PictureKey,
    bytes: Seq<u8>,
)
    ensures
        0 < staged(entries, key, bytes).len() <= MAX_PENDING_QQ_INLINE_IMAGES,
{
}

/// A picture that joined is the one its key finds, and once it is taken no picture
/// with its key is left.
pub proof fn a_staged_picture_is_taken_once(
    entries: Seq<(PictureKey, Seq<u8>)>,
    key: PictureKey,
    bytes: Seq<u8>,
)
    ensures
        ({
            let after = staged(entries, key, bytes);
            let at = position(after, key);
            &&& at < after.len()
            &&& after[at] == (key, bytes)
            &&& position(after.remove(at), key) == after.remove(at).len()
        }),
{
    let kept = newest(without(entries, key));
    let after = staged(entries, key, bytes);
    lemma_without(entries, key);
    assert forall|j: int| 0 <= j < kept.len() implies #[trigger] kept[j].0 != key by {
        let all = without(entries, key);
        if all.len() >= MAX_PENDING_QQ_INLINE_IMAGES {
            assert(kept[j] == all[j + all.len() - (MAX_PENDING_QQ_INLINE_IMAGES - 1)]);
        }
    }
    assert forall|j: int| 0 <= j < kept.len() implies #[trigger] after[j].0 != key by {
        assert(after[j] == kept[j]);
    }
    lemma_position(after, key, kept.len() as int);
    assert(after.remove(kept.len() as int) =~= kept);
    lemma_position(kept, key, kept.len() as int);
}

/// The oldest picture leaves when a ninth joins.
pub proof fn the_oldest_picture_leaves_first(
    entries: Seq<(PictureKey, Seq<u8>)>,
    key: PictureKey,
    bytes: Seq<u8>,
)
    requires
        entries.len() == MAX_PENDING_QQ_INLINE_IMAGES,
        forall|i: int| 0 <= i < entries.len() ==> #[trigger] entries[i].0 != key,
    ensures
        staged(entries, key, bytes) == entries.skip(1).push((key, bytes)),
{
    lemma_without_foreign(entries, key);
    assert(newest(entries) =~= entries.skip(1));
}

proof fn lemma_without_foreign(entries: Seq<(PictureKey, Seq<u8>)>, key: PictureKey)
    requires
        forall|i: int| 0 <= i < entries.len() ==> #[trigger] entries[i].0 != key,
    ensures
        without(entries, key) == entries,
    decreases entries.len(),
{
    if entries.len() > 0 {
        assert forall|i: int| 0 <= i < entries.drop_last().len() implies
            #[trigger] entries.drop_last()[i].0 != key by {
            assert(entries.drop_last()[i] == entries[i]);
        }
        lemma_without_foreign(entries.drop_last(), key);
        assert(entries[entries.len() - 1].0 != key);
        assert(entries.drop_last().push(entries.last()) =~= entries);
    } else {
        assert(without(entries, key) =~= entries);
    }
}

fn same_target(left: &QqMediaTarget, right: &QqMediaTarget) -> (answer: bool)
    ensures
        answer == (left@ == right@),
{
    match (left, right) {
        (QqMediaTarget::Group(a), QqMediaTarget::Group(b)) => same(a, b),
        (QqMediaTarget::Private(a), QqMediaTarget::Private(b)) => same(a, b),
        _ => false,
    }
}

fn same_key(left: &PendingQqInlineImageKey, right: &PendingQqInlineImageKey) -> (answer: bool)
    ensures
        answer == (left@ == right@),
{
    same(&left.account_id, &right.account_id) && same(&left.message_id, &right.message_id) && same(
        &left.sender_id,
        &right.sender_id,
    ) && same_target(&left.target, &right.target)
}

impl PendingImages {
    /// No picture waits.
    pub fn new() -> (pending: Self)
        ensures
            pending@ == Seq::<(PictureKey, Seq<u8>)>::empty(),
    {
        let pending = PendingImages { entries: Vec::new() };
        assert(pending@ =~= Seq::empty());
        pending
    }

    /// How many pictures wait.
    pub fn pending_image_count(&self) -> (count: usize)
        ensures
            count == self@.len(),
    {
        self.entries.len()
    }

    /// Drops every picture, so that none outlives a reload.
    pub fn clear_pending_images(&mut self)
        ensures
            final(self)@ == Seq::<(PictureKey, Seq<u8>)>::empty(),
    {
        self.entries = Vec::new();
        assert(self@ =~= Seq::empty());
    }

    /// Drops the pictures with a key.
    pub fn discard(&mut self, key: &PendingQqInlineImageKey)
        ensures
            final(self)@ == without(old(self)@, key@),
    {
        let ghost all = self@;
        let mut rest: Vec<PendingQqInlineImage> = Vec::new();
        std::mem::swap(&mut rest, &mut self.entries);
        let mut kept: Vec<PendingQqInlineImage> = Vec::new();
        let mut i: usize = 0;
        let ghost mut kept_view: Seq<(PictureKey, Seq<u8>)> = Seq::empty();
        assert(all.take(0) =~= Seq::empty());
        while i < rest.len()
            invariant
                i <= rest@.len(),
                all == Seq::new(rest@.len(), |j: int| rest@[j]@),
                kept_view == Seq::new(kept@.len(), |j: int| kept@[j]@),
                kept_view == without(all.take(i as int), key@),
            decreases rest@.len() - i,
        {
            assert(all.take(i + 1).drop_last() =~= all.take(i as int));
            assert(all.take(i + 1).last() == rest@[i as int]@);
            if !same_key(&rest[i].key, key) {
                let entry = PendingQqInlineImage {
                    key: copy_key(&rest[i].key),
                    bytes: rest[i].bytes.clone(),
                };
                assert(entry.bytes@ =~= rest@[i as int].bytes@);
                kept.push(entry);
                proof {
                    kept_view = kept_view.push(rest@[i as int]@);
                    assert(kept_view =~= Seq::new(kept@.len(), |j: int| kept@[j]@));
                }
            }
            i = i + 1;
        }
        assert(all.take(all.len() as int) =~= all);
        self.entries = kept;
    }

    /// Lets a picture wait.
    pub fn stage_image(&mut self, key: PendingQqInlineImageKey, bytes: Vec<u8>)
        ensures
            final(self)@ == staged(old(self)@, key@, bytes@),
    {
        self.discard(&key);
        let ghost kept = self@;
        let ghost full = kept.len() >= MAX_PENDING_QQ_INLINE_IMAGES;
        let ghost mut dropped: int = 0;
        while self.entries.len() >= MAX_PENDING_QQ_INLINE_IMAGES
            invariant
                0 <= dropped <= kept.len(),
                self@ == kept.skip(dropped),
                dropped > 0 ==> self@.len() >= MAX_PENDING_QQ_INLINE_IMAGES - 1,
                full == (kept.len() >= MAX_PENDING_QQ_INLINE_IMAGES),
                !full ==> dropped == 0,
            decreases self.entries@.len(),
        {
            let ghost before = self@;
            assert(before.len() == self.entries@.len());
            let _oldest = self.entries.remove(0);
            proof {
                assert(self@ =~= before.skip(1));
                assert(before.skip(1) =~= kept.skip(dropped + 1));
                dropped = dropped + 1;
            }
        }
        assert(self@ =~= newest(kept));
        let ghost before = self@;
        self.entries.push(PendingQqInlineImage { key, bytes });
        assert(self@ =~= before.push((key@, bytes@)));
    }

    /// Takes the picture with a key; without one, nothing changes.
    pub fn take_image(&mut self, key: &PendingQqInlineImageKey) -> (image: Option<
        PendingQqInlineImage,
    >)
        ensures
            ({
                let at = position(old(self)@, key@);
                match image {
                    Some(image) => at < old(self)@.len() && image@ == old(self)@[at] && final(self)@ == old(self)@.remove(at),
                    None => at == old(self)@.len() && final(self)@ == old(self)@,
                }
            }),
    {
        let ghost all = self@;
        let mut at: usize = 0;
        while at < self.entries.len()
            invariant
                at <= self.entries@.len(),
                all == self@,
                *self == *old(self),
                forall|j: int| 0 <= j < at ==> #[trigger] all[j].0 != key@,
            decreases self.entries@.len() - at,
        {
            assert(all[at as int] == self.entries@[at as int]@);
            if same_key(&self.entries[at].key, key) {
                proof {
                    lemma_position(all, key@, at as int);
                }
                let image = self.entries.remove(at);
                assert(self@ =~= all.remove(at as int));
                return Some(image);
            }
            at = at + 1;
        }
        proof {
            lemma_position(all, key@, at as int);
        }
        None
    }
}

fn copy_key(key: &PendingQqInlineImageKey) -> (copy: PendingQqInlineImageKey)
    ensures
        copy@ == key@,
{
    PendingQqInlineImageKey {
        account_id: key.account_id.clone(),
        message_id: key.message_id.clone(),
        sender_id: key.sender_id.clone(),
        target: match &key.target {
            QqMediaTarget::Group(id) => QqMediaTarget::Group(id.clone()),
            QqMediaTarget::Private(id) => QqMediaTarget::Private(id.clone()),
        },
    }
}

/// An identifier that is there and clean.
pub open spec fn is_valid_id(value: Seq<char>) -> bool {
    value.len() > 0 && identity::is_clean(value)
}

pub fn valid_id(value: &str) -> (answer: bool)
    ensures
        answer == is_valid_id(value@),
{
    !value.is_empty() && is_trimmed(value) && !any_control(value)
}

/// The key of an event from a group or a private chat of the official QQ adapter;
/// channels and direct messages have none.
pub open spec fn key_of(
    event: event::QqFacts,
    sender_id: Seq<char>,
    message_id: Seq<char>,
) -> Option<PictureKey> {
    if !event.is_object || !event.payload_is_object || !event.context_is_object
        || event.context_protocol != Some("qq-official"@) {
        None
    } else {
        match (event.context_account_id, event.event_type) {
            (Some(account_id), Some(kind)) => if !is_valid_id(account_id) || !is_valid_id(sender_id)
                || !is_valid_id(message_id) {
                None
            } else if kind == "GROUP_AT_MESSAGE_CREATE"@ || kind == "GROUP_MESSAGE_CREATE"@ {
                match event::first_of(event.root_group_openid, event.payload_group_openid) {
                    Some(group) => if is_valid_id(group) {
                        Some(
                            PictureKey {
                                account_id,
                                message_id,
                                sender_id,
                                target: Target::Group(group),
                            },
                        )
                    } else {
                        None
                    },
                    None => None,
                }
            } else if kind == "C2C_MESSAGE_CREATE"@ {
                Some(
                    PictureKey {
                        account_id,
                        message_id,
                        sender_id,
                        target: Target::Private(sender_id),
                    },
                )
            } else {
                None
            },
            _ => None,
        }
    }
}

/// The contents of an optional key.
pub open spec fn optional_key(key: Option<PendingQqInlineImageKey>) -> Option<PictureKey> {
    match key {
        Some(key) => Some(key@),
        None => None,
    }
}

/// Builds a key from what was read of an event.
pub fn key_from_event(event: QqEvent, sender_id: &str, message_id: &str) -> (key: Option<
    PendingQqInlineImageKey,
>)
    ensures
        optional_key(key) == key_of(event@, sender_id@, message_id@),
{
    if !event.is_object || !event.payload_is_object || !event.context_is_object {
        return None;
    }
    match &event.context_protocol {
        Some(protocol) => {
            if !same(protocol, "qq-official") {
                return None;
            }
        },
        None => return None,
    }
    let account_id = match event.context_account_id {
        Some(id) => id,
        None => return None,
    };
    let kind = match event.event_type {
        Some(kind) => kind,
        None => return None,
    };
    if !valid_id(&account_id) || !valid_id(sender_id) || !valid_id(message_id) {
        return None;
    }
    let target = if same(&kind, "GROUP_AT_MESSAGE_CREATE") || same(&kind, "GROUP_MESSAGE_CREATE") {
        match first(event.root_group_openid, event.payload_group_openid) {
            Some(group) => {
                if !valid_id(&group) {
                    return None;
                }
                QqMediaTarget::Group(group)
            },
            None => return None,
        }
    } else if same(&kind, "C2C_MESSAGE_CREATE") {
        QqMediaTarget::Private(sender_id.to_owned())
    } else {
        return None;
    };
    Some(
        PendingQqInlineImageKey {
            account_id,
            message_id: message_id.to_owned(),
            sender_id: sender_id.to_owned(),
            target,
        },
    )
}

/// The key of an event, by the host's context and never by a deployment's name.
pub fn key_from_parts(raw_event_json: &str, sender_id: &str, message_id: &str) -> (key: Option<
    PendingQqInlineImageKey,
>)
    ensures
        optional_key(key) == key_of(event::qq_facts(raw_event_json@), sender_id@, message_id@),
{
    key_from_event(read_qq_event(raw_event_json), sender_id, message_id)
}

/// The waiting pictures after a command was answered with a document.
pub open spec fn after_command(
    entries: Seq<(PictureKey, Seq<u8>)>,
    key: Option<PictureKey>,
    picture: Option<Seq<u8>>,
) -> Seq<(PictureKey, Seq<u8>)> {
    match (key, picture) {
        (Some(key), Some(bytes)) => staged(entries, key, bytes),
        _ => entries,
    }
}

impl PendingImages {
    /// Lets the local picture of a document wait for the main reply.
    pub fn stage_command_image(
        &mut self,
        request: &CommandRequest,
        document: &GameDocument,
        illustrations: &IllustrationConfig,
    )
        ensures
            final(self)@ == after_command(
                old(self)@,
                key_of(
                    event::qq_facts(request.raw_event_json@),
                    request.sender_id@,
                    request.message_id@,
                ),
                message::separate_picture(document@, *illustrations),
            ),
    {
        match key_from_parts(&request.raw_event_json, &request.sender_id, &request.message_id) {
            Some(key) => match qq_official_direct_inline_image(document, illustrations) {
                Some(bytes) => self.stage_image(key, bytes),
                None => {},
            },
            None => {},
        }
    }

    /// Takes the picture that belongs to a finished message.
    pub fn take_after_completion(&mut self, request: &InterceptorRequest) -> (image: Option<
        PendingQqInlineImage,
    >)
        ensures
            match key_of(
                event::qq_facts(request.raw_event_json@),
                request.sender_id@,
                request.message_id@,
            ) {
                Some(key) => {
                    let at = position(old(self)@, key);
                    match image {
                        Some(image) => at < old(self)@.len() && image@ == old(self)@[at] && final(self)@ == old(self)@.remove(at),
                        None => at == old(self)@.len() && final(self)@ == old(self)@,
                    }
                },
                None => image is None && final(self)@ == old(self)@,
            },
    {
        match key_from_parts(&request.raw_event_json, &request.sender_id, &request.message_id) {
            Some(key) => self.take_image(&key),
            None => None,
        }
    }

    /// Drops the picture of a message that got no reply.
    pub fn discard_for_interceptor(&mut self, request: &InterceptorRequest)
        ensures
            final(self)@ == match key_of(
                event::qq_facts(request.raw_event_json@),
                request.sender_id@,
                request.message_id@,
            ) {
                Some(key) => without(old(self)@, key),
                None => old(self)@,
            },
    {
        match key_from_parts(&request.raw_event_json, &request.sender_id, &request.message_id) {
            Some(key) => self.discard(&key),
            None => {},
        }
    }
}

/// The segments of the message that carries a waiting picture.
pub fn image_segments(image: &PendingQqInlineImage) -> (segments: String)
    requires
        image.bytes@.len() <= 0x4000_0000,
    ensures
        segments@ == "["@ + message::segment(
            "image"@,
            "file"@,
            message::inline_source(image.bytes@),
        ) + "]"@,
{
    qq_official_inline_image_segments(image.bytes.as_slice())
}

} // verus!
