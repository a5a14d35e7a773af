//! Per-workspace metadata.
//!
//! Each workspace has a handle, and under it a handful of keys: how it is attached to the
//! terminal multiplexer, in which mode it was opened, and which windows and sessions belong to
//! it. A [`MetaStore`] is the content of the place where a backend keeps these values.

use crate::text::{hex, same_text};
use vstd::prelude::*;

verus! {

/// How a worktree is attached to the terminal multiplexer.
#[derive(Clone, Copy, Debug, PartialEq, Eq, Structural)]
pub enum WorktreeAttachment {
    /// It has no window of its own.
    Headless,
    /// It has a window or session.
    Multiplexer,
    /// The recorded value is not one that is understood.
    Unknown,
    /// Nothing is recorded: it was made before attachments were.
    Legacy,
}

/// What a worktree is opened as in the terminal multiplexer.
#[derive(Clone, Copy, Debug, PartialEq, Eq, Structural)]
pub enum MuxMode {
    Window,
    Session,
}

/// An attachment that has no recorded form.
#[derive(Clone, Copy, Debug, PartialEq, Eq, Structural)]
pub struct UnstorableAttachment {
    pub attachment: WorktreeAttachment,
}

/// The recorded form of an attachment.
pub open spec fn attachment_value(attachment: WorktreeAttachment) -> Option<Seq<char>> {
    match attachment {
        WorktreeAttachment::Headless => Some("headless"@),
        WorktreeAttachment::Multiplexer => Some("multiplexer"@),
        WorktreeAttachment::Unknown => None,
        WorktreeAttachment::Legacy => None,
    }
}

/// The attachment that a recorded value stands for.
pub open spec fn attachment_of(value: Option<Seq<char>>) -> WorktreeAttachment {
    match value {
        Some(text) => if text == "headless"@ {
            WorktreeAttachment::Headless
        } else if text == "multiplexer"@ {
            WorktreeAttachment::Multiplexer
        } else {
            WorktreeAttachment::Unknown
        },
        None => WorktreeAttachment::Legacy,
    }
}

/// The recorded form of a mode.
pub open spec fn mode_value(mode: MuxMode) -> Seq<char> {
    match mode {
        MuxMode::Window => "window"@,
        MuxMode::Session => "session"@,
    }
}

/// The mode that a recorded value stands for.
pub open spec fn mode_of(value: Option<Seq<char>>) -> Option<MuxMode> {
    match value {
        Some(text) => if text == "session"@ {
            Some(MuxMode::Session)
        } else if text == "window"@ {
            Some(MuxMode::Window)
        } else {
            None
        },
        None => None,
    }
}

impl WorktreeAttachment {
    /// The recorded form, for the attachments that have one.
    pub fn as_meta_value(self) -> (res: Result<&'static str, UnstorableAttachment>)
        ensures
            match res {
                Ok(value) => attachment_value(self) == Some(value@),
                Err(e) => attachment_value(self) is None && e.attachment == self,
            },
    {
        match self {
            WorktreeAttachment::Headless => Ok("headless"),
            WorktreeAttachment::Multiplexer => Ok("multiplexer"),
            WorktreeAttachment::Unknown => Err(UnstorableAttachment { attachment: self }),
            WorktreeAttachment::Legacy => Err(UnstorableAttachment { attachment: self }),
        }
    }
}

impl MuxMode {
    /// The recorded form.
    pub fn as_meta_value(self) -> (res: &'static str)
        ensures
            res@ == mode_value(self),
    {
        match self {
            MuxMode::Window => "window",
            MuxMode::Session => "session",
        }
    }
}

/// Reads a recorded attachment.
pub fn read_attachment(value: &Option<String>) -> (res: WorktreeAttachment)
    ensures
        res == attachment_of(crate::text::opt_text(*value)),
{
    match value {
        Some(text) => {
            if same_text(text.as_str(), "headless") {
                WorktreeAttachment::Headless
            } else if same_text(text.as_str(), "multiplexer") {
                WorktreeAttachment::Multiplexer
            } else {
                WorktreeAttachment::Unknown
            }
        },
        None => WorktreeAttachment::Legacy,
    }
}

/// Reads a recorded mode.
pub fn read_mode(value: &Option<String>) -> (res: Option<MuxMode>)
    ensures
        res == mode_of(crate::text::opt_text(*value)),
{
    match value {
        Some(text) => {
            if same_text(text.as_str(), "session") {
                Some(MuxMode::Session)
            } else if same_text(text.as_str(), "window") {
                Some(MuxMode::Window)
            } else {
                None
            }
        },
        None => None,
    }
}

struct MetaEntry {
    handle: String,
    key: String,
    value: String,
}

/// Metadata values by handle and key.
pub struct MetaStore {
    entries: Vec<MetaEntry>,
}

/// What a [`MetaStore`] holds: a value for each pair of a handle and a key that has one.
pub type MetaView = Map<(Seq<char>, Seq<char>), Seq<char>>;

/// The value under a handle and a key.
pub open spec fn lookup(meta: MetaView, handle: Seq<char>, key: Seq<char>) -> Option<Seq<char>> {
    if meta.dom().contains((handle, key)) {
        Some(meta[(handle, key)])
    } else {
        None
    }
}

impl MetaEntry {
    spec fn at(self) -> (Seq<char>, Seq<char>) {
        (self.handle@, self.key@)
    }
}

spec fn contents(entries: Seq<MetaEntry>) -> MetaView
    decreases entries.len(),
{
    if entries.len() == 0 {
        Map::empty()
    } else {
        contents(entries.drop_last()).insert(entries.last().at(), entries.last().value@)
    }
}

spec fn no_duplicates(entries: Seq<MetaEntry>) -> bool {
    forall|i: int, j: int|
        0 <= i < j < entries.len() ==> (#[trigger] entries[i]).at() != (#[trigger] entries[j]).at()
}

proof fn contents_at(entries: Seq<MetaEntry>, i: int)
    requires
        no_duplicates(entries),
        0 <= i < entries.len(),
    ensures
        contents(entries).dom().contains(entries[i].at()),
        contents(entries)[entries[i].at()] == entries[i].value@,
    decreases entries.len(),
{
    if i < entries.len() - 1 {
        assert(entries.drop_last()[i] == entries[i]);
        contents_at(entries.drop_last(), i);
        assert(entries[i].at() != entries.last().at());
    }
}

proof fn contents_without(entries: Seq<MetaEntry>, at: (Seq<char>, Seq<char>))
    requires
        forall|i: int| 0 <= i < entries.len() ==> (#[trigger] entries[i]).at() != at,
    ensures
        !contents(entries).dom().contains(at),
    decreases entries.len(),
{
    if entries.len() > 0 {
        assert forall|i: int| 0 <= i < entries.drop_last().len() implies (
        #[trigger] entries.drop_last()[i]).at() != at by {
            assert(entries.drop_last()[i] == entries[i]);
        }
        contents_without(entries.drop_last(), at);
        assert(entries[entries.len() - 1].at() != at);
    }
}

proof fn contents_update(entries: Seq<MetaEntry>, i: int, entry: MetaEntry)
    requires
        no_duplicates(entries),
        0 <= i < entries.len(),
        entries[i].at() == entry.at(),
    ensures
        contents(entries.update(i, entry)) == contents(entries).insert(entry.at(), entry.value@),
    decreases entries.len(),
{
    let changed = entries.update(i, entry);
    if i == entries.len() - 1 {
        assert(changed.drop_last() =~= entries.drop_last());
    } else {
        assert(changed.drop_last() =~= entries.drop_last().update(i, entry));
        assert(entries.drop_last()[i] == entries[i]);
        contents_update(entries.drop_last(), i, entry);
        assert(entries[i].at() != entries[entries.len() - 1].at());
    }
    assert(contents(changed) =~= contents(entries).insert(entry.at(), entry.value@));
}

impl View for MetaStore {
    type V = MetaView;

    closed spec fn view(&self) -> MetaView {
        contents(self.entries@)
    }
}

impl MetaStore {
    #[verifier::type_invariant]
    spec fn inv(self) -> bool {
        no_duplicates(self.entries@)
    }

    /// A store without values.
    pub fn new() -> (res: Self)
        ensures
            res@ == Map::<(Seq<char>, Seq<char>), Seq<char>>::empty(),
    {
        MetaStore { entries: Vec::new() }
    }

    fn position(entries: &Vec<MetaEntry>, handle: &str, key: &str) -> (res: Option<usize>)
        ensures
            match res {
                Some(i) => i < entries@.len() && entries@[i as int].at() == (handle@, key@),
                None => forall|i: int|
                    0 <= i < entries@.len() ==> (#[trigger] entries@[i]).at() != (handle@, key@),
            },
    {
        for i in 0..entries.len()
            invariant
                forall|j: int| 0 <= j < i ==> (#[trigger] entries@[j]).at() != (handle@, key@),
        {
            if same_text(entries[i].handle.as_str(), handle) && same_text(
                entries[i].key.as_str(),
                key,
            ) {
                return Some(i);
            }
        }
        None
    }

    /// The value under `handle` and `key`.
    pub fn get(&self, handle: &str, key: &str) -> (res: Option<String>)
        ensures
            crate::text::opt_text(res) == lookup(self@, handle@, key@),
    {
        proof {
            use_type_invariant(self);
        }
        match Self::position(&self.entries, handle, key) {
            Some(i) => {
                proof {
                    contents_at(self.entries@, i as int);
                }
                Some(self.entries[i].value.clone())
            },
            None => {
                proof {
                    contents_without(self.entries@, (handle@, key@));
                }
                None
            },
        }
    }

    /// Puts `value` under `handle` and `key`, in place of what was there.
    pub fn set(&mut self, handle: &str, key: &str, value: &str)
        ensures
            final(self)@ == old(self)@.insert((handle@, key@), value@),
    {
        proof {
            use_type_invariant(&*self);
        }
        let mut entries: Vec<MetaEntry> = Vec::new();
        std::mem::swap(&mut entries, &mut self.entries);
        let ghost before = entries@;
        let entry = MetaEntry {
            handle: handle.to_owned(),
            key: key.to_owned(),
            value: value.to_owned(),
        };
        match Self::position(&entries, handle, key) {
            Some(i) => {
                proof {
                    contents_update(before, i as int, entry);
                }
                entries.set(i, entry);
                assert(no_duplicates(entries@)) by {
                    assert forall|j: int, k: int| 0 <= j < k < entries@.len() implies (
                    #[trigger] entries@[j]).at() != (#[trigger] entries@[k]).at() by {
                        assert(before[j].at() != before[k].at());
                    }
                }
            },
            None => {
                entries.push(entry);
                assert(entries@.drop_last() =~= before);
                assert(no_duplicates(entries@)) by {
                    assert forall|j: int, k: int| 0 <= j < k < entries@.len() implies (
                    #[trigger] entries@[j]).at() != (#[trigger] entries@[k]).at() by {
                        if k < before.len() {
                            assert(before[j].at() != before[k].at());
                        } else {
                            assert(entries@[j] == before[j]);
                        }
                    }
                }
            },
        }
        self.entries = entries;
    }
}

/// Records `value` for a workspace.
pub fn set_meta(store: &mut MetaStore, handle: &str, key: &str, value: &str)
    ensures
        final(store)@ == old(store)@.insert((handle@, key@), value@),
{
    store.set(handle, key, value)
}

/// Takes the outcome of writing `value` where the backend keeps it. Where the write was refused,
/// nothing changes and its error is handed on.
pub fn meta_written<E>(
    store: &mut MetaStore,
    handle: &str,
    key: &str,
    value: &str,
    written: Result<(), E>,
) -> (res: Result<(), E>)
    ensures
        match written {
            Ok(_) => res is Ok,
            Err(error) => res == Err::<(), E>(error),
        },
        final(store)@ == (if written is Ok {
            old(store)@.insert((handle@, key@), value@)
        } else {
            old(store)@
        }),
{
    match written {
        Ok(()) => {
            set_meta(store, handle, key, value);
            Ok(())
        },
        Err(error) => Err(error),
    }
}

/// The recorded attachment of a workspace.
pub fn get_attachment(store: &MetaStore, handle: &str) -> (res: WorktreeAttachment)
    ensures
        res == attachment_of(lookup(store@, handle@, "attachment"@)),
{
    read_attachment(&store.get(handle, "attachment"))
}

/// Records the attachment of a workspace; one that has no recorded form is refused.
pub fn set_attachment(
    store: &mut MetaStore,
    handle: &str,
    attachment: WorktreeAttachment,
) -> (res: Result<(), UnstorableAttachment>)
    ensures
        match attachment_value(attachment) {
            Some(value) => res is Ok && final(store)@ == old(store)@.insert(
                (handle@, "attachment"@),
                value,
            ),
            None => res == Err::<(), UnstorableAttachment>(UnstorableAttachment { attachment })
                && final(store)@ == old(store)@,
        },
{
    match attachment.as_meta_value() {
        Ok(value) => {
            set_meta(store, handle, "attachment", value);
            Ok(())
        },
        Err(e) => Err(e),
    }
}

/// The recorded mode of a workspace, if it is one that is understood.
pub fn get_mode_opt(store: &MetaStore, handle: &str) -> (res: Option<MuxMode>)
    ensures
        res == mode_of(lookup(store@, handle@, "mode"@)),
{
    read_mode(&store.get(handle, "mode"))
}

/// The window that the workspace was opened from.
pub fn get_target_window(store: &MetaStore, handle: &str) -> (res: Option<String>)
    ensures
        crate::text::opt_text(res) == lookup(store@, handle@, "target-window"@),
{
    store.get(handle, "target-window")
}

/// The session that the workspace was opened from.
pub fn get_target_session(store: &MetaStore, handle: &str) -> (res: Option<String>)
    ensures
        crate::text::opt_text(res) == lookup(store@, handle@, "target-session"@),
{
    store.get(handle, "target-session")
}

/// The session that holds the window of the workspace.
pub fn get_window_session(store: &MetaStore, handle: &str) -> (res: Option<String>)
    ensures
        crate::text::opt_text(res) == lookup(store@, handle@, "window-session"@),
{
    store.get(handle, "window-session")
}

/// The token that marks the window of the workspace.
pub fn get_window_token(store: &MetaStore, handle: &str) -> (res: Option<String>)
    ensures
        crate::text::opt_text(res) == lookup(store@, handle@, "window-token"@),
{
    store.get(handle, "window-token")
}

/// The error of the system's random source.
#[verifier::external_type_specification]
#[verifier::external_body]
pub struct ExRandomError(getrandom::Error);

/// `getrandom::fill` overwrites its argument with bytes from the system's random source, or
/// fails. Which bytes come, and whether it fails, is chance; the argument keeps its length.
pub assume_specification[ getrandom::fill ](dest: &mut [u8]) -> (res: Result<(), getrandom::Error>)
    ensures
        final(dest)@.len() == old(dest)@.len(),
;

/// No window token could be made.
pub struct TokenError {
    /// Why the random source failed.
    pub cause: getrandom::Error,
}

impl TokenError {
    /// What could not be done.
    pub fn message(&self) -> (res: &'static str)
        ensures
            res@ == "Failed to generate worktree window token"@,
    {
        "Failed to generate worktree window token"
    }
}

/// Whether a text is a window token: sixteen bytes in hexadecimal notation.
pub open spec fn is_token(text: Seq<char>) -> bool {
    exists|bytes: Seq<u8>| bytes.len() == 16 && text == #[trigger] crate::text::hex_text(bytes)
}

/// What [`ensure_window_token`] does to the metadata `before`: a recorded token is returned and
/// nothing changes; else a new token is recorded and returned, or nothing changes.
pub open spec fn token_ensured(
    before: MetaView,
    handle: Seq<char>,
    token: Option<Seq<char>>,
    after: MetaView,
) -> bool {
    match lookup(before, handle, "window-token"@) {
        Some(recorded) => token == Some(recorded) && after == before,
        None => match token {
            Some(text) => is_token(text) && after == before.insert(
                (handle, "window-token"@),
                text,
            ),
            None => after == before,
        },
    }
}

/// Records the token made of `bytes` for a workspace.
pub fn record_window_token(store: &mut MetaStore, handle: &str, bytes: &[u8]) -> (token: String)
    ensures
        token@ == crate::text::hex_text(bytes@),
        final(store)@ == old(store)@.insert((handle@, "window-token"@), token@),
{
    let token = hex(bytes);
    set_meta(store, handle, "window-token", token.as_str());
    token
}

/// The window token of the workspace; one is made and recorded when there is none.
pub fn ensure_window_token(store: &mut MetaStore, handle: &str) -> (res: Result<
    String,
    TokenError,
>)
    ensures
        token_ensured(
            old(store)@,
            handle@,
            match res {
                Ok(token) => Some(token@),
                Err(_) => None,
            },
            final(store)@,
        ),
{
    if let Some(token) = get_window_token(store, handle) {
        return Ok(token);
    }
    let mut bytes: [u8; 16] = [0; 16];
    match getrandom::fill(&mut bytes) {
        Ok(()) => {
            let token = record_window_token(store, handle, &bytes);
            Ok(token)
        },
        Err(cause) => Err(TokenError { cause }),
    }
}

/// Takes the outcome of writing a new token where the backend keeps it. The token is the result
/// only if it was written; else nothing changes and the error of the write is handed on.
pub fn token_written<E>(
    store: &mut MetaStore,
    handle: &str,
    token: String,
    written: Result<(), E>,
) -> (res: Result<String, E>)
    ensures
        match written {
            Ok(_) => res == Ok::<String, E>(token) && final(store)@ == old(store)@.insert(
                (handle@, "window-token"@),
                token@,
            ),
            Err(error) => res == Err::<String, E>(error) && final(store)@ == old(store)@,
        },
{
    match meta_written(store, handle, "window-token", token.as_str(), written) {
        Ok(()) => Ok(token),
        Err(error) => Err(error),
    }
}

/// An attachment that was recorded is read back.
pub proof fn recorded_attachment_is_read_back(
    before: MetaView,
    handle: Seq<char>,
    attachment: WorktreeAttachment,
)
    requires
        attachment_value(attachment) is Some,
    ensures
        attachment_of(
            lookup(
                before.insert((handle, "attachment"@), attachment_value(attachment)->0),
                handle,
                "attachment"@,
            ),
        ) == attachment,
{
    reveal_strlit("headless");
    reveal_strlit("multiplexer");
    assert("headless"@.len() != "multiplexer"@.len());
}

/// A mode that was recorded is read back.
pub proof fn recorded_mode_is_read_back(before: MetaView, handle: Seq<char>, mode: MuxMode)
    ensures
        mode_of(
            lookup(before.insert((handle, "mode"@), mode_value(mode)), handle, "mode"@),
        ) == Some(mode),
{
    reveal_strlit("window");
    reveal_strlit("session");
    assert("window"@.len() != "session"@.len());
}

/// A value that was recorded is read back, and no other workspace and no other key of the same
/// workspace is touched.
pub proof fn recording_touches_one_value(
    before: MetaView,
    handle: Seq<char>,
    key: Seq<char>,
    value: Seq<char>,
    other_handle: Seq<char>,
    other_key: Seq<char>,
)
    ensures
        lookup(before.insert((handle, key), value), handle, key) == Some(value),
        other_handle != handle || other_key != key ==> lookup(
            before.insert((handle, key), value),
            other_handle,
            other_key,
        ) == lookup(before, other_handle, other_key),
{
}

/// Once a workspace has a window token it keeps it: asking again changes nothing and gives the
/// same token.
pub proof fn window_token_is_kept(
    before: MetaView,
    handle: Seq<char>,
    token: Seq<char>,
    between: MetaView,
    again: Option<Seq<char>>,
    after: MetaView,
)
    requires
        token_ensured(before, handle, Some(token), between),
        token_ensured(between, handle, again, after),
    ensures
        again == Some(token),
        after == between,
{
}

/// A window token is 32 hexadecimal digits long.
pub proof fn window_token_length(text: Seq<char>)
    requires
        is_token(text),
    ensures
        text.len() == 32,
{
    let bytes = choose|bytes: Seq<u8>|
        bytes.len() == 16 && text == #[trigger] crate::text::hex_text(bytes);
    assert(text.len() == 2 * bytes.len());
}

/// A recorded attachment is read by its word; another word is not understood, and nothing
/// recorded stands for a workspace from before attachments were.
pub proof fn attachment_is_read_by_its_word(text: Seq<char>)
    ensures
        attachment_of(Some("headless"@)) == WorktreeAttachment::Headless,
        attachment_of(Some("multiplexer"@)) == WorktreeAttachment::Multiplexer,
        text != "headless"@ && text != "multiplexer"@ ==> attachment_of(Some(text))
            == WorktreeAttachment::Unknown,
        attachment_of(None) == WorktreeAttachment::Legacy,
        attachment_value(WorktreeAttachment::Headless) == Some("headless"@),
        attachment_value(WorktreeAttachment::Multiplexer) == Some("multiplexer"@),
        attachment_value(WorktreeAttachment::Unknown) is None,
        attachment_value(WorktreeAttachment::Legacy) is None,
{
    reveal_strlit("headless");
    reveal_strlit("multiplexer");
    assert("headless"@.len() != "multiplexer"@.len());
}

/// A recorded mode is read by its word; another word, or none, stands for no mode.
pub proof fn mode_is_read_by_its_word(text: Seq<char>)
    ensures
        mode_of(Some("session"@)) == Some(MuxMode::Session),
        mode_of(Some("window"@)) == Some(MuxMode::Window),
        text != "session"@ && text != "window"@ ==> mode_of(Some(text)) is None,
        mode_of(None) is None,
        mode_value(MuxMode::Session) == "session"@,
        mode_value(MuxMode::Window) == "window"@,
{
    reveal_strlit("window");
    reveal_strlit("session");
    assert("window"@.len() != "session"@.len());
}

/// A value is found exactly where one is recorded.
pub proof fn recorded_value_is_found(meta: MetaView, handle: Seq<char>, key: Seq<char>)
    ensures
        lookup(meta, handle, key) is Some <==> meta.dom().contains((handle, key)),
        lookup(meta, handle, key) matches Some(value) ==> meta[(handle, key)] == value,
{
}

/// A workspace that asked for its token has it recorded, a token that it had is the one it gets,
/// and no other value is touched; where no token could be made, nothing at all is.
pub proof fn token_is_recorded_and_nothing_else(
    before: MetaView,
    handle: Seq<char>,
    token: Option<Seq<char>>,
    after: MetaView,
    other_handle: Seq<char>,
    other_key: Seq<char>,
)
    requires
        token_ensured(before, handle, token, after),
    ensures
        token is Some ==> lookup(after, handle, "window-token"@) == token,
        lookup(before, handle, "window-token"@) is Some ==> lookup(
            before,
            handle,
            "window-token"@,
        ) == token,
        token is None ==> after == before,
        other_handle != handle || other_key != "window-token"@ ==> lookup(
            after,
            other_handle,
            other_key,
        ) == lookup(before, other_handle, other_key),
        lookup(before, handle, "window-token"@) is None && token is Some ==> is_token(token->0),
{
}

/// A window token holds hexadecimal digits only.
pub proof fn window_token_holds_digits(text: Seq<char>, i: int)
    requires
        is_token(text),
        0 <= i < text.len(),
    ensures
        '0' <= text[i] <= '9' || 'a' <= text[i] <= 'f',
{
    let bytes = choose|bytes: Seq<u8>|
        bytes.len() == 16 && text == #[trigger] crate::text::hex_text(bytes);
    assert(i / 2 < bytes.len());
}

} // verus!
