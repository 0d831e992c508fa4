//! Compact identifiers: at most nine bytes of text stored inline, each namespace
//! fixing the first byte.

use core::marker::PhantomData;
use crate::json::{Decode, DecodeError, JsonValue};
use vstd::prelude::*;
use vstd::std_specs::convert::FromSpec;
use vstd::string::StringSliceAdditionalSpecFns;
use vstd::utf8::*;

verus! {

broadcast use {encode_utf8_valid_utf8, encode_utf8_decode_utf8};

/// The most bytes an identifier may hold.
pub const ID_LENGTH: usize = 9;

/// A closed category of identifiers sharing a required first byte.
pub trait Namespace {
    spec fn spec_prefix() -> u8;

    /// The byte every identifier of this namespace starts with.
    fn prefix() -> (r: u8)
        ensures
            r == Self::spec_prefix(),
    ;

    /// The namespace's name, for diagnostics.
    fn name() -> &'static str;
}

/// Whether `b` is the text of an identifier of a namespace with prefix `prefix`.
pub open spec fn is_id_text(b: Seq<u8>, prefix: u8) -> bool {
    1 <= b.len() <= ID_LENGTH && b[0] == prefix
}

/// How a text fares against a namespace's rules: the length is checked first.
pub enum IdCheck {
    Valid,
    BadLength,
    BadPrefix,
}

pub open spec fn id_check(b: Seq<u8>, prefix: u8) -> IdCheck {
    if b.len() == 0 || b.len() > ID_LENGTH {
        IdCheck::BadLength
    } else if b[0] != prefix {
        IdCheck::BadPrefix
    } else {
        IdCheck::Valid
    }
}

/// Why a text is not an identifier.
#[derive(Debug, Clone, PartialEq, Eq)]
pub enum IdentifierError {
    /// The text is empty or longer than nine bytes.
    InvalidLength { namespace: &'static str, value: String },
    /// The text does not start with the namespace's prefix.
    InvalidPrefix { namespace: &'static str, expected: u8, found: u8, value: String },
    /// No conversation namespace has the text's first byte as its prefix.
    UnrecognizedConversationPrefix { value: String },
}

impl IdentifierError {
    pub open spec fn is_invalid_length(&self) -> bool {
        self is InvalidLength
    }

    pub open spec fn is_invalid_prefix(&self) -> bool {
        self is InvalidPrefix
    }
}

/// An identifier of namespace `N`: its bytes live inline in a nine-byte buffer.
#[derive(Copy, Debug, PartialEq, Eq, Hash)]
pub struct Identifier<N: Namespace> {
    len: u8,
    buf: [u8; 9],
    ns: PhantomData<N>,
}

impl<N: Namespace + Copy> Clone for Identifier<N> {
    fn clone(&self) -> (r: Self)
        ensures
            r == *self,
    {
        *self
    }
}

impl<N: Namespace> View for Identifier<N> {
    type V = Seq<u8>;

    /// The identifier's text, as bytes.
    closed spec fn view(&self) -> Seq<u8> {
        self.buf@.subrange(0, self.len as int)
    }
}

impl<N: Namespace> Identifier<N> {
    #[verifier::type_invariant]
    closed spec fn well_formed(&self) -> bool {
        self.wf()
    }

    /// Whether the value keeps the type's invariant: valid text, zeros past it.
    pub closed spec fn wf(&self) -> bool {
        &&& self.len <= ID_LENGTH
        &&& is_id_text(self.buf@.subrange(0, self.len as int), N::spec_prefix())
        &&& valid_utf8(self.buf@.subrange(0, self.len as int))
        &&& forall|i: int| self.len <= i < ID_LENGTH ==> self.buf@[i] == 0u8
    }

    /// Two well-formed identifiers with the same text are the same value.
    pub proof fn lemma_equal_views(a: Self, b: Self)
        requires
            a.wf(),
            b.wf(),
            a@ == b@,
        ensures
            a == b,
    {
        assert(a.len == b.len);
        assert forall|i: int| 0 <= i < 9 implies a.buf@[i] == b.buf@[i] by {
            if i < a.len {
                assert(a@[i] == a.buf@.subrange(0, a.len as int)[i]);
                assert(b@[i] == b.buf@.subrange(0, b.len as int)[i]);
                assert(a@[i] == b@[i]);
            } else {
                assert(a.len <= i < ID_LENGTH);
                assert(a.buf@[i] == 0u8);
                assert(b.buf@[i] == 0u8);
            }
        }
        assert(a.buf@ =~= b.buf@);
        assert(a.buf =~= b.buf);
    }

    /// Decodes `text` as an identifier of namespace `N`.
    pub fn decode(text: &str) -> (r: Result<Self, IdentifierError>)
        ensures
            r is Ok <==> id_check(text.spec_bytes(), N::spec_prefix()) is Valid,
            r is Ok ==> r->Ok_0@ == text.spec_bytes() && r->Ok_0.wf(),
            id_check(text.spec_bytes(), N::spec_prefix()) is BadLength ==> r is Err
                && r->Err_0.is_invalid_length() && r->Err_0->InvalidLength_value@ == text@,
            id_check(text.spec_bytes(), N::spec_prefix()) is BadPrefix ==> r is Err
                && r->Err_0.is_invalid_prefix() && r->Err_0->InvalidPrefix_value@ == text@
                && r->Err_0->InvalidPrefix_expected == N::spec_prefix()
                && r->Err_0->InvalidPrefix_found == text.spec_bytes()[0],
    {
        let bytes = text.as_bytes();
        let n = bytes.len();
        if n == 0 || n > ID_LENGTH {
            return Err(IdentifierError::InvalidLength { namespace: N::name(), value: text.to_owned() });
        }
        let prefix = N::prefix();
        if bytes[0] != prefix {
            return Err(
                IdentifierError::InvalidPrefix {
                    namespace: N::name(),
                    expected: prefix,
                    found: bytes[0],
                    value: text.to_owned(),
                },
            );
        }
        let mut buf: [u8; 9] = [0u8, 0, 0, 0, 0, 0, 0, 0, 0];
        let mut i: usize = 0;
        while i < n
            invariant
                n == bytes@.len(),
                1 <= n <= ID_LENGTH,
                i <= n,
                forall|j: int| 0 <= j < i ==> buf@[j] == bytes@[j],
                forall|j: int| i <= j < ID_LENGTH ==> buf@[j] == 0u8,
            decreases n - i,
        {
            buf[i] = bytes[i];
            i = i + 1;
        }
        assert(buf@.subrange(0, n as int) =~= bytes@);
        Ok(Identifier { len: n as u8, buf, ns: PhantomData })
    }

    /// The identifier's text.
    pub fn as_str(&self) -> (r: &str)
        ensures
            r.spec_bytes() == self@,
            r@ == decode_utf8(self@),
            is_id_text(self@, N::spec_prefix()),
    {
        proof {
            use_type_invariant(self);
        }
        let bytes = vstd::slice::slice_subrange(self.buf.as_slice(), 0, self.len as usize);
        let text = text_of_utf8(bytes);
        proof {
            decode_utf8_encode_utf8(self@);
        }
        text.unwrap()
    }

    /// The identifier's text, as an owned string.
    pub fn to_string(&self) -> (r: String)
        ensures
            r@ == decode_utf8(self@),
    {
        self.as_str().to_owned()
    }
}

/// The namespace of bot identifiers, which start with `B`.
#[derive(Clone, Copy, Debug, PartialEq, Eq, Hash)]
pub struct BotNamespace;

impl Namespace for BotNamespace {
    open spec fn spec_prefix() -> u8 {
        'B' as u8
    }

    fn prefix() -> (r: u8) {
        'B' as u8
    }

    fn name() -> &'static str {
        "BotId"
    }
}

pub type BotId = Identifier<BotNamespace>;

/// The namespace of user identifiers, which start with `U`.
#[derive(Clone, Copy, Debug, PartialEq, Eq, Hash)]
pub struct UserNamespace;

impl Namespace for UserNamespace {
    open spec fn spec_prefix() -> u8 {
        'U' as u8
    }

    fn prefix() -> (r: u8) {
        'U' as u8
    }

    fn name() -> &'static str {
        "UserId"
    }
}

pub type UserId = Identifier<UserNamespace>;

/// The namespace of channel identifiers, which start with `C`.
#[derive(Clone, Copy, Debug, PartialEq, Eq, Hash)]
pub struct ChannelNamespace;

impl Namespace for ChannelNamespace {
    open spec fn spec_prefix() -> u8 {
        'C' as u8
    }

    fn prefix() -> (r: u8) {
        'C' as u8
    }

    fn name() -> &'static str {
        "ChannelId"
    }
}

pub type ChannelId = Identifier<ChannelNamespace>;

/// The namespace of group identifiers, which start with `G`.
#[derive(Clone, Copy, Debug, PartialEq, Eq, Hash)]
pub struct GroupNamespace;

impl Namespace for GroupNamespace {
    open spec fn spec_prefix() -> u8 {
        'G' as u8
    }

    fn prefix() -> (r: u8) {
        'G' as u8
    }

    fn name() -> &'static str {
        "GroupId"
    }
}

pub type GroupId = Identifier<GroupNamespace>;

/// The namespace of direct message identifiers, which start with `D`.
#[derive(Clone, Copy, Debug, PartialEq, Eq, Hash)]
pub struct DmNamespace;

impl Namespace for DmNamespace {
    open spec fn spec_prefix() -> u8 {
        'D' as u8
    }

    fn prefix() -> (r: u8) {
        'D' as u8
    }

    fn name() -> &'static str {
        "DmId"
    }
}

pub type DmId = Identifier<DmNamespace>;

/// The namespace of team identifiers, which start with `T`.
#[derive(Clone, Copy, Debug, PartialEq, Eq, Hash)]
pub struct TeamNamespace;

impl Namespace for TeamNamespace {
    open spec fn spec_prefix() -> u8 {
        'T' as u8
    }

    fn prefix() -> (r: u8) {
        'T' as u8
    }

    fn name() -> &'static str {
        "TeamId"
    }
}

pub type TeamId = Identifier<TeamNamespace>;

/// The namespace of app identifiers, which start with `A`.
#[derive(Clone, Copy, Debug, PartialEq, Eq, Hash)]
pub struct AppNamespace;

impl Namespace for AppNamespace {
    open spec fn spec_prefix() -> u8 {
        'A' as u8
    }

    fn prefix() -> (r: u8) {
        'A' as u8
    }

    fn name() -> &'static str {
        "AppId"
    }
}

pub type AppId = Identifier<AppNamespace>;

/// The namespace of file identifiers, which start with `F`.
#[derive(Clone, Copy, Debug, PartialEq, Eq, Hash)]
pub struct FileNamespace;

impl Namespace for FileNamespace {
    open spec fn spec_prefix() -> u8 {
        'F' as u8
    }

    fn prefix() -> (r: u8) {
        'F' as u8
    }

    fn name() -> &'static str {
        "FileId"
    }
}

pub type FileId = Identifier<FileNamespace>;

/// The namespace of usergroup identifiers, which start with `S`.
#[derive(Clone, Copy, Debug, PartialEq, Eq, Hash)]
pub struct UsergroupNamespace;

impl Namespace for UsergroupNamespace {
    open spec fn spec_prefix() -> u8 {
        'S' as u8
    }

    fn prefix() -> (r: u8) {
        'S' as u8
    }

    fn name() -> &'static str {
        "UsergroupId"
    }
}

pub type UsergroupId = Identifier<UsergroupNamespace>;

/// The namespace of reminder identifiers, which start with `R`.
#[derive(Clone, Copy, Debug, PartialEq, Eq, Hash)]
pub struct ReminderNamespace;

impl Namespace for ReminderNamespace {
    open spec fn spec_prefix() -> u8 {
        'R' as u8
    }

    fn prefix() -> (r: u8) {
        'R' as u8
    }

    fn name() -> &'static str {
        "ReminderId"
    }
}

pub type ReminderId = Identifier<ReminderNamespace>;

/// Whether `c` is the prefix of one of the conversation namespaces.
pub open spec fn is_conversation_prefix(c: u8) -> bool {
    c == 'C' as u8 || c == 'G' as u8 || c == 'D' as u8
}

/// An identifier of a channel, a private group or a direct message, remembering
/// which namespace it was decoded in.
#[derive(Clone, Copy, Debug, PartialEq, Eq, Hash)]
pub enum ConversationId {
    Channel(ChannelId),
    Group(GroupId),
    DirectMessage(DmId),
}

impl View for ConversationId {
    type V = Seq<u8>;

    open spec fn view(&self) -> Seq<u8> {
        match self {
            ConversationId::Channel(id) => id@,
            ConversationId::Group(id) => id@,
            ConversationId::DirectMessage(id) => id@,
        }
    }
}

impl ConversationId {
    /// Whether the identifier inside keeps its type's invariant.
    pub open spec fn wf(&self) -> bool {
        match self {
            ConversationId::Channel(id) => id.wf(),
            ConversationId::Group(id) => id.wf(),
            ConversationId::DirectMessage(id) => id.wf(),
        }
    }

    /// The prefix of the namespace the identifier belongs to.
    pub open spec fn spec_prefix(&self) -> u8 {
        match self {
            ConversationId::Channel(_) => 'C' as u8,
            ConversationId::Group(_) => 'G' as u8,
            ConversationId::DirectMessage(_) => 'D' as u8,
        }
    }

    /// Decodes `text` in the conversation namespace whose prefix it starts with:
    /// channels, then groups, then direct messages.
    pub fn decode(text: &str) -> (r: Result<ConversationId, IdentifierError>)
        ensures
            ({
                let b = text.spec_bytes();
                &&& r is Ok <==> 1 <= b.len() <= ID_LENGTH && is_conversation_prefix(b[0])
                &&& r is Ok ==> r->Ok_0@ == b && r->Ok_0.spec_prefix() == b[0] && r->Ok_0.wf()
                &&& (b.len() == 0 || !is_conversation_prefix(b[0])) ==> r is Err
                    && r->Err_0 is UnrecognizedConversationPrefix
                    && r->Err_0->UnrecognizedConversationPrefix_value@ == text@
                &&& (b.len() > 0 && is_conversation_prefix(b[0]) && b.len() > ID_LENGTH) ==> r is Err
                    && r->Err_0.is_invalid_length() && r->Err_0->InvalidLength_value@ == text@
            }),
    {
        let bytes = text.as_bytes();
        if bytes.len() == 0 {
            return Err(IdentifierError::UnrecognizedConversationPrefix { value: text.to_owned() });
        }
        let first = bytes[0];
        if first == ChannelNamespace::prefix() {
            match ChannelId::decode(text) {
                Ok(id) => Ok(ConversationId::Channel(id)),
                Err(e) => Err(e),
            }
        } else if first == GroupNamespace::prefix() {
            match GroupId::decode(text) {
                Ok(id) => Ok(ConversationId::Group(id)),
                Err(e) => Err(e),
            }
        } else if first == DmNamespace::prefix() {
            match DmId::decode(text) {
                Ok(id) => Ok(ConversationId::DirectMessage(id)),
                Err(e) => Err(e),
            }
        } else {
            Err(IdentifierError::UnrecognizedConversationPrefix { value: text.to_owned() })
        }
    }

    /// The identifier's text.
    pub fn as_str(&self) -> (r: &str)
        ensures
            r.spec_bytes() == self@,
            r@ == decode_utf8(self@),
            is_id_text(self@, self.spec_prefix()),
    {
        match self {
            ConversationId::Channel(id) => id.as_str(),
            ConversationId::Group(id) => id.as_str(),
            ConversationId::DirectMessage(id) => id.as_str(),
        }
    }

    /// The identifier's text, as an owned string.
    pub fn to_string(&self) -> (r: String)
        ensures
            r@ == decode_utf8(self@),
    {
        self.as_str().to_owned()
    }
}

impl From<ChannelId> for ConversationId {
    fn from(id: ChannelId) -> (r: ConversationId) {
        ConversationId::Channel(id)
    }
}

impl vstd::std_specs::convert::FromSpecImpl<ChannelId> for ConversationId {
    open spec fn obeys_from_spec() -> bool {
        true
    }

    open spec fn from_spec(id: ChannelId) -> ConversationId {
        ConversationId::Channel(id)
    }
}

impl From<GroupId> for ConversationId {
    fn from(id: GroupId) -> (r: ConversationId) {
        ConversationId::Group(id)
    }
}

impl vstd::std_specs::convert::FromSpecImpl<GroupId> for ConversationId {
    open spec fn obeys_from_spec() -> bool {
        true
    }

    open spec fn from_spec(id: GroupId) -> ConversationId {
        ConversationId::Group(id)
    }
}

impl From<DmId> for ConversationId {
    fn from(id: DmId) -> (r: ConversationId) {
        ConversationId::DirectMessage(id)
    }
}

impl vstd::std_specs::convert::FromSpecImpl<DmId> for ConversationId {
    open spec fn obeys_from_spec() -> bool {
        true
    }

    open spec fn from_spec(id: DmId) -> ConversationId {
        ConversationId::DirectMessage(id)
    }
}

impl<N: Namespace> Decode for Identifier<N> {
    open spec fn accepts(v: JsonValue) -> bool {
        v is Str && id_check(encode_utf8(v->Str_0@), N::spec_prefix()) is Valid
    }

    open spec fn decodes_to(v: JsonValue, x: Identifier<N>) -> bool {
        x@ == encode_utf8(v->Str_0@)
    }

    open spec fn rejects_with(v: JsonValue, e: DecodeError) -> bool {
        if v is Str {
            &&& e is Identifier
            &&& id_check(encode_utf8(v->Str_0@), N::spec_prefix()) is BadLength ==> e->Identifier_0.is_invalid_length()
            &&& id_check(encode_utf8(v->Str_0@), N::spec_prefix()) is BadPrefix ==> e->Identifier_0.is_invalid_prefix()
        } else {
            e == (DecodeError::WrongType { expected: "identifier string" })
        }
    }

    fn decode(v: JsonValue) -> Result<Identifier<N>, DecodeError> {
        match v {
            JsonValue::Str(s) => match Identifier::<N>::decode(s.as_str()) {
                Ok(id) => Ok(id),
                Err(e) => Err(DecodeError::Identifier(e)),
            },
            _ => Err(DecodeError::WrongType { expected: "identifier string" }),
        }
    }
}

/// Whether `b` is the text of a conversation identifier.
pub open spec fn is_conversation_text(b: Seq<u8>) -> bool {
    1 <= b.len() <= ID_LENGTH && is_conversation_prefix(b[0])
}

impl Decode for ConversationId {
    open spec fn accepts(v: JsonValue) -> bool {
        v is Str && is_conversation_text(encode_utf8(v->Str_0@))
    }

    open spec fn decodes_to(v: JsonValue, x: ConversationId) -> bool {
        x@ == encode_utf8(v->Str_0@) && x.spec_prefix() == encode_utf8(v->Str_0@)[0]
    }

    open spec fn rejects_with(v: JsonValue, e: DecodeError) -> bool {
        if v is Str {
            e is Identifier
        } else {
            e == (DecodeError::WrongType { expected: "conversation identifier string" })
        }
    }

    fn decode(v: JsonValue) -> Result<ConversationId, DecodeError> {
        match v {
            JsonValue::Str(s) => match ConversationId::decode(s.as_str()) {
                Ok(id) => Ok(id),
                Err(e) => Err(DecodeError::Identifier(e)),
            },
            _ => Err(DecodeError::WrongType { expected: "conversation identifier string" }),
        }
    }
}

/// A conversation identifier holding a channel with the same text as `id` is
/// `id` made into a conversation identifier.
pub proof fn lemma_channel_conversation_is_from(c: ConversationId, id: ChannelId)
    requires
        c.wf(),
        id.wf(),
        c is Channel,
        c@ == id@,
    ensures
        c == ConversationId::from_spec(id),
{
    Identifier::lemma_equal_views(c->Channel_0, id);
}

/// A conversation identifier holding a group with the same text as `id` is
/// `id` made into a conversation identifier.
pub proof fn lemma_group_conversation_is_from(c: ConversationId, id: GroupId)
    requires
        c.wf(),
        id.wf(),
        c is Group,
        c@ == id@,
    ensures
        c == ConversationId::from_spec(id),
{
    Identifier::lemma_equal_views(c->Group_0, id);
}

/// A conversation identifier holding a direct message with the same text as `id` is
/// `id` made into a conversation identifier.
pub proof fn lemma_direct_message_conversation_is_from(c: ConversationId, id: DmId)
    requires
        c.wf(),
        id.wf(),
        c is DirectMessage,
        c@ == id@,
    ensures
        c == ConversationId::from_spec(id),
{
    Identifier::lemma_equal_views(c->DirectMessage_0, id);
}

/// A text that meets a namespace's rules decodes, and reading the identifier back
/// gives the text itself.
pub proof fn lemma_valid_text_round_trips(s: &str, prefix: u8)
    requires
        1 <= s.spec_bytes().len() <= ID_LENGTH,
        s.spec_bytes()[0] == prefix,
    ensures
        id_check(s.spec_bytes(), prefix) is Valid,
        decode_utf8(s.spec_bytes()) == s@,
{
}

/// A text that breaks a namespace's rules is refused: for its length when that is
/// wrong, else for its first byte.
pub proof fn lemma_invalid_text_refused(s: &str, prefix: u8)
    requires
        !is_id_text(s.spec_bytes(), prefix),
    ensures
        s.spec_bytes().len() == 0 || s.spec_bytes().len() > ID_LENGTH
            ==> id_check(s.spec_bytes(), prefix) is BadLength,
        1 <= s.spec_bytes().len() <= ID_LENGTH ==> id_check(s.spec_bytes(), prefix) is BadPrefix,
{
}

/// Relies on std::str::from_utf8: valid UTF-8 comes back as text with the same bytes,
/// anything else is refused.
#[verifier::external_body]
pub(crate) fn text_of_utf8(b: &[u8]) -> (r: Option<&str>)
    ensures
        r is Some <==> valid_utf8(b@),
        r is Some ==> r->Some_0.spec_bytes() == b@,
{
    std::str::from_utf8(b).ok()
}

} // verus!
