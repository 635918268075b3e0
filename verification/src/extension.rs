//! The registry of extensions: what the server said of each extension name
//! that was asked for, kept for the lifetime of the adapter.

use core::hash::BuildHasherDefault;
use hashbrown::HashMap;
use rustc_hash::FxHasher;
use vstd::prelude::*;

verus! {

/// The codes that the server assigned to an extension.
#[derive(Debug, Clone, Copy, PartialEq, Eq)]
pub struct ExtensionInfo {
    /// Major opcode of the extension's requests.
    pub major_opcode: u8,
    /// Code of the extension's first event.
    pub first_event: u8,
    /// Code of the extension's first error.
    pub first_error: u8,
}

/// The server's answer to a query for an extension.
#[derive(Debug, Clone, Copy, PartialEq, Eq)]
pub struct QueryAnswer {
    /// Whether the server has the extension.
    pub present: bool,
    /// Major opcode of the extension's requests.
    pub major_opcode: u8,
    /// Code of the extension's first event.
    pub first_event: u8,
    /// Code of the extension's first error.
    pub first_error: u8,
}

/// A `hashbrown::HashMap` from extension names to what is known of them,
/// hashed with `FxHasher`.
#[verifier::external_body]
pub struct EntryMap {
    inner: HashMap<&'static str, Option<ExtensionInfo>, BuildHasherDefault<FxHasher>>,
}

/// The entries that a map holds, by the characters of the name.
pub uninterp spec fn map_entries(table: EntryMap) -> Map<Seq<char>, Option<ExtensionInfo>>;

/// The entries of a map that holds nothing.
pub open spec fn no_entries() -> Map<Seq<char>, Option<ExtensionInfo>> {
    Map::empty()
}

/// `HashMap::with_hasher`, on a default `FxHasher` builder: the new map holds
/// nothing.
#[verifier::external_body]
fn map_new() -> (table: EntryMap)
    ensures
        map_entries(table) == no_entries(),
{
    EntryMap { inner: HashMap::with_hasher(BuildHasherDefault::default()) }
}

/// `HashMap::get`: the value stored under the name, if the map has the name.
#[verifier::external_body]
fn map_get(table: &EntryMap, name: &'static str) -> (entry: Option<Option<ExtensionInfo>>)
    ensures
        entry == (if map_entries(*table).dom().contains(name@) {
            Some(map_entries(*table)[name@])
        } else {
            None
        }),
{
    table.inner.get(&name).copied()
}

/// `HashMap::insert`: the name maps to the value afterwards and nothing else
/// changes.
#[verifier::external_body]
fn map_insert(table: &mut EntryMap, name: &'static str, entry: Option<ExtensionInfo>)
    ensures
        map_entries(*final(table)) == map_entries(*old(table)).insert(name@, entry),
{
    table.inner.insert(name, entry);
}

/// `HashMap::iter`, collected: each item handed out is an entry of the map,
/// and each entry of the map is handed out. The order is the map's own.
#[verifier::external_body]
fn map_items(table: &EntryMap) -> (items: Vec<(&'static str, Option<ExtensionInfo>)>)
    ensures
        forall|i: int|
            0 <= i < items@.len() ==> map_entries(*table).dom().contains((#[trigger] items@[i]).0@)
                && map_entries(*table)[items@[i].0@] == items@[i].1,
        forall|name: Seq<char>| #[trigger]
            map_entries(*table).dom().contains(name) ==> exists|i: int|
                0 <= i < items@.len() && (#[trigger] items@[i]).0@ == name,
{
    table.inner.iter().map(|(name, entry)| (*name, *entry)).collect()
}

/// What the registry answers for a name: `None` while the name was never
/// recorded, else the major opcode if the extension is present.
pub open spec fn cached_code(
    entries: Map<Seq<char>, Option<ExtensionInfo>>,
    name: Seq<char>,
) -> Option<Option<u8>> {
    if entries.dom().contains(name) {
        Some(
            match entries[name] {
                Some(info) => Some(info.major_opcode),
                None => None,
            },
        )
    } else {
        None
    }
}

/// The entry that a query answer makes: the three codes of an extension that
/// is present, nothing for one that is absent.
pub open spec fn entry_of(answer: QueryAnswer) -> Option<ExtensionInfo> {
    if answer.present {
        Some(
            ExtensionInfo {
                major_opcode: answer.major_opcode,
                first_event: answer.first_event,
                first_error: answer.first_error,
            },
        )
    } else {
        None
    }
}

/// The entries after an answer for `name` was recorded: a name that is known
/// already keeps its entry.
pub open spec fn recorded(
    entries: Map<Seq<char>, Option<ExtensionInfo>>,
    name: Seq<char>,
    answer: QueryAnswer,
) -> Map<Seq<char>, Option<ExtensionInfo>> {
    if entries.dom().contains(name) {
        entries
    } else {
        entries.insert(name, entry_of(answer))
    }
}

/// Whether some present extension of `entries` is accepted by `accepts`.
pub open spec fn some_entry_matches(
    entries: Map<Seq<char>, Option<ExtensionInfo>>,
    accepts: spec_fn(ExtensionInfo) -> bool,
) -> bool {
    exists|name: Seq<char>| #[trigger]
        entries.dom().contains(name) && entries[name] is Some && accepts(entries[name]->0)
}

/// The extensions that the adapter has asked the server about.
pub struct ExtensionManager {
    entries: EntryMap,
}

impl View for ExtensionManager {
    type V = Map<Seq<char>, Option<ExtensionInfo>>;

    closed spec fn view(&self) -> Map<Seq<char>, Option<ExtensionInfo>> {
        map_entries(self.entries)
    }
}

impl ExtensionManager {
    /// A registry that knows of no extension.
    pub fn new() -> (manager: ExtensionManager)
        ensures
            manager@ == no_entries(),
    {
        ExtensionManager { entries: map_new() }
    }

    /// The fast path of a resolution: the recorded answer for `name`. `None`
    /// means that the server has to be asked; `Some(None)` that the extension
    /// is known to be absent.
    pub fn extension_code(&self, name: &'static str) -> (code: Option<Option<u8>>)
        ensures
            code == cached_code(self@, name@),
    {
        match map_get(&self.entries, name) {
            Some(Some(info)) => Some(Some(info.major_opcode)),
            Some(None) => Some(None),
            None => None,
        }
    }

    /// The slow path of a resolution, once the server has answered. The name
    /// is looked up again first: an entry that is there is kept as it is, and
    /// its opcode is the result. Otherwise the answer is recorded.
    pub fn record_answer(&mut self, name: &'static str, answer: QueryAnswer) -> (code: Option<u8>)
        ensures
            final(self)@ == recorded(old(self)@, name@, answer),
            Some(code) == cached_code(final(self)@, name@),
            !old(self)@.dom().contains(name@) ==> code == (if answer.present {
                Some(answer.major_opcode)
            } else {
                None
            }),
    {
        match self.extension_code(name) {
            Some(code) => code,
            None => {
                let entry = if answer.present {
                    Some(
                        ExtensionInfo {
                            major_opcode: answer.major_opcode,
                            first_event: answer.first_event,
                            first_error: answer.first_error,
                        },
                    )
                } else {
                    None
                };
                map_insert(&mut self.entries, name, entry);
                if answer.present {
                    Some(answer.major_opcode)
                } else {
                    None
                }
            },
        }
    }

    /// Scans the recorded extensions for one that `accepts` says yes to.
    /// Which one is found, where several match, is not fixed.
    pub fn find_extension_info<F: Fn(&ExtensionInfo) -> bool>(&self, accepts: F) -> (found: Option<
        (&'static str, ExtensionInfo),
    >)
        requires
            forall|info: ExtensionInfo| accepts.requires((&info,)),
        ensures
            found matches Some((name, info)) ==> self@.dom().contains(name@) && self@[name@]
                == Some(info) && accepts.ensures((&info,), true),
            found is None ==> forall|name: Seq<char>| #[trigger]
                self@.dom().contains(name) && self@[name] is Some ==> accepts.ensures(
                    (&self@[name]->0,),
                    false,
                ),
    {
        let items = map_items(&self.entries);
        let mut i: usize = 0;
        while i < items.len()
            invariant
                i <= items@.len(),
                forall|info: ExtensionInfo| accepts.requires((&info,)),
                forall|k: int|
                    0 <= k < items@.len() ==> self@.dom().contains((#[trigger] items@[k]).0@)
                        && self@[items@[k].0@] == items@[k].1,
                forall|k: int|
                    0 <= k < i && (#[trigger] items@[k]).1 is Some ==> accepts.ensures(
                        (&items@[k].1->0,),
                        false,
                    ),
            decreases items@.len() - i,
        {
            let (name, entry) = items[i];
            if let Some(info) = entry {
                if accepts(&info) {
                    return Some((name, info));
                }
            }
            i += 1;
        }
        assert forall|name: Seq<char>| #[trigger]
            self@.dom().contains(name) && self@[name] is Some implies accepts.ensures(
            (&self@[name]->0,),
            false,
        ) by {
            let k = choose|k: int| 0 <= k < items@.len() && (#[trigger] items@[k]).0@ == name;
            assert(items@[k].1 == self@[name]);
        }
        None
    }

    /// The extension whose first error code is `error_code`.
    pub fn get_from_error_code(&self, error_code: u8) -> (found: Option<
        (&'static str, ExtensionInfo),
    >)
        ensures
            found matches Some((name, info)) ==> self@.dom().contains(name@) && self@[name@]
                == Some(info) && info.first_error == error_code,
            found is None <==> !some_entry_matches(
                self@,
                |info: ExtensionInfo| info.first_error == error_code,
            ),
    {
        let accepts = |info: &ExtensionInfo| -> (yes: bool)
            ensures
                yes == (info.first_error == error_code),
            { info.first_error == error_code };
        self.find_extension_info(accepts)
    }

    /// The extension whose first event code is `event_code`.
    pub fn get_from_event_code(&self, event_code: u8) -> (found: Option<
        (&'static str, ExtensionInfo),
    >)
        ensures
            found matches Some((name, info)) ==> self@.dom().contains(name@) && self@[name@]
                == Some(info) && info.first_event == event_code,
            found is None <==> !some_entry_matches(
                self@,
                |info: ExtensionInfo| info.first_event == event_code,
            ),
    {
        let accepts = |info: &ExtensionInfo| -> (yes: bool)
            ensures
                yes == (info.first_event == event_code),
            { info.first_event == event_code };
        self.find_extension_info(accepts)
    }

    /// The extension whose major opcode is `major_opcode`.
    pub fn get_from_major_opcode(&self, major_opcode: u8) -> (found: Option<
        (&'static str, ExtensionInfo),
    >)
        ensures
            found matches Some((name, info)) ==> self@.dom().contains(name@) && self@[name@]
                == Some(info) && info.major_opcode == major_opcode,
            found is None <==> !some_entry_matches(
                self@,
                |info: ExtensionInfo| info.major_opcode == major_opcode,
            ),
    {
        let accepts = |info: &ExtensionInfo| -> (yes: bool)
            ensures
                yes == (info.major_opcode == major_opcode),
            { info.major_opcode == major_opcode };
        self.find_extension_info(accepts)
    }
}

/// Once an answer for a name is recorded, the registry answers for that name
/// without a query, and no later answer for the name changes what it says.
pub proof fn lemma_recorded_once(
    entries: Map<Seq<char>, Option<ExtensionInfo>>,
    name: Seq<char>,
    first: QueryAnswer,
    later: QueryAnswer,
)
    ensures
        cached_code(recorded(entries, name, first), name) is Some,
        recorded(recorded(entries, name, first), name, later) == recorded(entries, name, first),
        cached_code(recorded(recorded(entries, name, first), name, later), name) == cached_code(
            recorded(entries, name, first),
            name,
        ),
{
}

/// The entries after each of `answers` was recorded for `name`, in turn.
pub open spec fn recorded_all(
    entries: Map<Seq<char>, Option<ExtensionInfo>>,
    name: Seq<char>,
    answers: Seq<QueryAnswer>,
) -> Map<Seq<char>, Option<ExtensionInfo>>
    decreases answers.len(),
{
    if answers.len() == 0 {
        entries
    } else {
        recorded(recorded_all(entries, name, answers.drop_last()), name, answers.last())
    }
}

/// However many callers record an answer for one name, and whatever their
/// answers are, the registry says of the name what the first of them
/// recorded: every caller is told the same.
pub proof fn lemma_all_callers_agree(
    entries: Map<Seq<char>, Option<ExtensionInfo>>,
    name: Seq<char>,
    answers: Seq<QueryAnswer>,
)
    requires
        answers.len() > 0,
    ensures
        recorded_all(entries, name, answers) == recorded(entries, name, answers[0]),
    decreases answers.len(),
{
    if answers.len() > 1 {
        lemma_all_callers_agree(entries, name, answers.drop_last());
        assert(answers.drop_last()[0] == answers[0]);
    } else {
        assert(recorded_all(entries, name, answers.drop_last()) == entries);
    }
}

/// Recording an answer for one name leaves what is known of every other name
/// as it was.
pub proof fn lemma_record_keeps_others(
    entries: Map<Seq<char>, Option<ExtensionInfo>>,
    name: Seq<char>,
    answer: QueryAnswer,
    other: Seq<char>,
)
    requires
        other != name,
    ensures
        cached_code(recorded(entries, name, answer), other) == cached_code(entries, other),
{
}

} // verus!
