//! The table of the paths under which dependencies are installed.
//!
//! The table is kept in a file as one JSON object from names to paths. The
//! manager holds it in memory once it is loaded. Reading and writing the
//! file is the caller's part: the manager takes what was read and returns
//! what is to be written.

use vstd::prelude::*;
use vstd::string::*;
use crate::text::pair_texts;

verus! {

/// Why the manager could not do what it was asked.
#[derive(Debug)]
pub enum DependencyManagerError {
    /// The file could not be read; the text is what the system said.
    IoError(String),
    /// The file does not hold a table, or the table could not be
    /// rendered; the text is what `serde_json` said.
    SerdeError(String),
    /// No path is registered under the name.
    NotFoundError,
}

/// A table as a mathematical value: names and paths, in order.
pub type Entries = Seq<(Seq<char>, Seq<char>)>;

/// The texts of an optional table.
pub open spec fn table_texts(table: Option<Vec<(String, String)>>) -> Option<Entries> {
    match table {
        Some(entries) => Some(pair_texts(entries@)),
        None => None,
    }
}

/// Whether no name occurs twice in `entries`.
pub open spec fn distinct_names(entries: Entries) -> bool {
    forall|i: int, j: int| 0 <= i < j < entries.len() ==> (#[trigger] entries[i]).0 != (#[trigger] entries[j]).0
}

/// The position of the first entry with the name `name`, or the length of
/// `entries` if there is none.
pub open spec fn position_of(entries: Entries, name: Seq<char>) -> int
    decreases entries.len(),
{
    if entries.len() == 0 {
        0
    } else if entries[0].0 == name {
        0
    } else {
        1 + position_of(entries.drop_first(), name)
    }
}

/// The path that is registered under `name`.
pub open spec fn lookup(entries: Entries, name: Seq<char>) -> Option<Seq<char>> {
    let k = position_of(entries, name);
    if k < entries.len() {
        Some(entries[k].1)
    } else {
        None
    }
}

/// `entries` with `path` registered under `name`: in the place of the
/// path that was there, or behind all entries if there was none.
pub open spec fn upsert(entries: Entries, name: Seq<char>, path: Seq<char>) -> Entries {
    let k = position_of(entries, name);
    if k < entries.len() {
        entries.update(k, (name, path))
    } else {
        entries.push((name, path))
    }
}

/// The table that comes about when the entries of `entries` are
/// registered one after another.
pub open spec fn collected(entries: Entries) -> Entries
    decreases entries.len(),
{
    if entries.len() == 0 {
        Seq::empty()
    } else {
        upsert(collected(entries.drop_last()), entries.last().0, entries.last().1)
    }
}

/// What `serde_json` reads from `text` as an optional object of strings:
/// the entries of the object in the order in which an ordered map hands
/// them out, no table for `null`, or the message of its error.
pub uninterp spec fn parsed_paths(text: Seq<char>) -> Result<Option<Entries>, Seq<char>>;

/// The JSON text that `serde_json` writes for an optional object with the
/// given entries.
pub uninterp spec fn rendered_paths(table: Option<Entries>) -> Seq<char>;

/// Calls `serde_json::from_str` for an optional `BTreeMap` from strings to
/// strings and hands out the entries of the map.
///
/// Trusted: the outcome is a function of the text alone.
#[verifier::external_body]
fn parse_paths(text: &str) -> (parsed: Result<Option<Vec<(String, String)>>, String>)
    ensures
        match parsed {
            Ok(table) => parsed_paths(text@) == Ok::<Option<Entries>, Seq<char>>(table_texts(table)),
            Err(message) => parsed_paths(text@) == Err::<Option<Entries>, Seq<char>>(message@),
        },
{
    match serde_json::from_str::<Option<std::collections::BTreeMap<String, String>>>(text) {
        Ok(table) => Ok(table.map(|entries| entries.into_iter().collect())),
        Err(e) => Err(e.to_string()),
    }
}

/// Calls `serde_json::to_string` on an optional `serde_json::Map` that is
/// filled with the entries in order.
///
/// Trusted: the text is a function of the entries alone, and the call
/// succeeds: the serializer writes into memory, and an object whose keys
/// and values are strings holds nothing that it refuses.
#[verifier::external_body]
fn render_paths(table: &Option<Vec<(String, String)>>) -> (text: Result<String, String>)
    ensures
        text is Ok,
        text->Ok_0@ == rendered_paths(table_texts(*table)),
{
    let object: Option<serde_json::Map<String, serde_json::Value>> = table.as_ref().map(
        |entries| entries.iter().map(|(name, path)| (name.clone(), serde_json::Value::String(path.clone()))).collect(),
    );
    serde_json::to_string(&object).map_err(|e| e.to_string())
}

/// The first entry with the name `name` is the one at `k` if no entry in
/// front of it has that name and it has it, or the table ends there.
pub proof fn lemma_position(entries: Entries, name: Seq<char>, k: int)
    requires
        0 <= k <= entries.len(),
        forall|j: int| 0 <= j < k ==> (#[trigger] entries[j]).0 != name,
        k < entries.len() ==> entries[k].0 == name,
    ensures
        position_of(entries, name) == k,
    decreases entries.len(),
{
    if entries.len() > 0 && k > 0 {
        let rest = entries.drop_first();
        lemma_position(rest, name, k - 1);
    }
}

/// The position of a name lies within the table or at its end, no entry
/// in front of it has the name, and the entry at it has.
pub proof fn lemma_position_bounds(entries: Entries, name: Seq<char>)
    ensures
        0 <= position_of(entries, name) <= entries.len(),
        forall|j: int| 0 <= j < position_of(entries, name) ==> (#[trigger] entries[j]).0 != name,
        position_of(entries, name) < entries.len() ==> entries[position_of(entries, name)].0 == name,
    decreases entries.len(),
{
    if entries.len() > 0 && entries[0].0 != name {
        let rest = entries.drop_first();
        lemma_position_bounds(rest, name);
        assert forall|j: int| 0 <= j < position_of(entries, name) implies (#[trigger] entries[j]).0 != name by {
            if j > 0 {
                assert(rest[j - 1] == entries[j]);
            }
        }
    }
}

/// Registering a path keeps the names of a table distinct; afterwards the
/// name leads to the new path, and every other name to what it led to
/// before.
pub proof fn lemma_upsert(entries: Entries, name: Seq<char>, path: Seq<char>, other: Seq<char>)
    requires
        distinct_names(entries),
    ensures
        distinct_names(upsert(entries, name, path)),
        lookup(upsert(entries, name, path), name) == Some(path),
        other != name ==> lookup(upsert(entries, name, path), other) == lookup(entries, other),
{
    let after = upsert(entries, name, path);
    let k = position_of(entries, name);
    lemma_position_bounds(entries, name);
    lemma_position(after, name, k);
    if other != name {
        let m = position_of(entries, other);
        lemma_position_bounds(entries, other);
        if m < entries.len() {
            lemma_position(after, other, m);
        } else {
            lemma_position(after, other, after.len() as int);
        }
    }
}

/// A table that was collected entry by entry has distinct names.
pub proof fn lemma_collected_is_distinct(entries: Entries)
    ensures
        distinct_names(collected(entries)),
    decreases entries.len(),
{
    if entries.len() > 0 {
        lemma_collected_is_distinct(entries.drop_last());
        lemma_upsert(collected(entries.drop_last()), entries.last().0, entries.last().1, entries.last().0);
    }
}

/// The manager of the table of dependency paths.
pub struct DependencyManager {
    registered_paths: Option<Vec<(String, String)>>,
    file_path: String,
}

/// A manager as a mathematical value.
pub struct DependencyManagerView {
    /// The table, once it is loaded.
    pub registered_paths: Option<Entries>,
    /// The file that the table is kept in.
    pub file_path: Seq<char>,
}

impl View for DependencyManager {
    type V = DependencyManagerView;

    closed spec fn view(&self) -> DependencyManagerView {
        DependencyManagerView { registered_paths: table_texts(self.registered_paths), file_path: self.file_path@ }
    }
}

impl DependencyManagerView {
    /// No name occurs twice in the table.
    pub open spec fn wf(self) -> bool {
        self.registered_paths matches Some(entries) ==> distinct_names(entries)
    }

    /// The manager after `path` was registered under `name`: a manager
    /// without a table stays without one.
    pub open spec fn after_register(self, name: Seq<char>, path: Seq<char>) -> DependencyManagerView {
        match self.registered_paths {
            Some(entries) => DependencyManagerView { registered_paths: Some(upsert(entries, name, path)), ..self },
            None => self,
        }
    }

    /// The path that is registered under `name`.
    pub open spec fn path_of(self, name: Seq<char>) -> Option<Seq<char>> {
        match self.registered_paths {
            Some(entries) => lookup(entries, name),
            None => None,
        }
    }

    /// The manager after it was handed what was read from its file. A
    /// table that is loaded is kept; else the text is parsed, and a text
    /// that holds a table gives the manager that table.
    pub open spec fn after_load(self, text: Option<Seq<char>>) -> DependencyManagerView {
        if self.registered_paths is Some {
            self
        } else {
            match text {
                Some(t) => match parsed_paths(t) {
                    Ok(Some(entries)) => DependencyManagerView {
                        registered_paths: Some(collected(entries)),
                        ..self
                    },
                    _ => self,
                },
                None => self,
            }
        }
    }
}

fn find_name(entries: &Vec<(String, String)>, name: &str) -> (k: usize)
    ensures
        k == position_of(pair_texts(entries@), name@),
        k <= entries.len(),
{
    let wanted = String::from_str(name);
    let mut i: usize = 0;
    while i < entries.len()
        invariant
            i <= entries.len(),
            wanted@ == name@,
            forall|j: int| 0 <= j < i ==> (#[trigger] pair_texts(entries@)[j]).0 != name@,
        decreases entries.len() - i,
    {
        if entries[i].0 == wanted {
            proof {
                lemma_position(pair_texts(entries@), name@, i as int);
            }
            return i;
        }
        i = i + 1;
    }
    proof {
        lemma_position(pair_texts(entries@), name@, i as int);
    }
    i
}

fn put_entry(entries: &mut Vec<(String, String)>, name: String, path: String)
    ensures
        pair_texts(final(entries)@) == upsert(pair_texts(old(entries)@), name@, path@),
{
    let k = find_name(entries, name.as_str());
    if k < entries.len() {
        entries.set(k, (name, path));
    } else {
        entries.push((name, path));
    }
}

impl DependencyManager {
    #[verifier::type_invariant]
    spec fn inv(self) -> bool {
        self@.wf()
    }

    /// A manager for the table in the file `file_path`. The table is not
    /// loaded yet.
    pub fn new(file_path: &str) -> (manager: DependencyManager)
        ensures
            manager@ == (DependencyManagerView { registered_paths: None, file_path: file_path@ }),
    {
        DependencyManager { registered_paths: None, file_path: String::from_str(file_path) }
    }

    /// The file that the table is kept in.
    pub fn file_path(&self) -> (path: &str)
        ensures
            path@ == self@.file_path,
    {
        self.file_path.as_str()
    }

    /// Whether the table is loaded.
    pub fn is_loaded(&self) -> (loaded: bool)
        ensures
            loaded == self@.registered_paths is Some,
            self@.wf(),
    {
        proof {
            use_type_invariant(self);
        }
        self.registered_paths.is_some()
    }

    /// Makes `entries` the table of the manager, whatever it held before.
    /// Where a name occurs more than once, it keeps its first place and
    /// its last path.
    pub fn install(&mut self, entries: Vec<(String, String)>)
        ensures
            final(self)@ == (DependencyManagerView {
                registered_paths: Some(collected(pair_texts(entries@))),
                ..old(self)@
            }),
            final(self)@.wf(),
    {
        let mut table: Vec<(String, String)> = Vec::new();
        let mut i: usize = 0;
        while i < entries.len()
            invariant
                i <= entries.len(),
                pair_texts(table@) == collected(pair_texts(entries@).take(i as int)),
            decreases entries.len() - i,
        {
            proof {
                let all = pair_texts(entries@);
                assert(all.take(i + 1).drop_last() =~= all.take(i as int));
            }
            put_entry(&mut table, entries[i].0.clone(), entries[i].1.clone());
            i = i + 1;
        }
        proof {
            assert(pair_texts(entries@).take(entries.len() as int) =~= pair_texts(entries@));
            lemma_collected_is_distinct(pair_texts(entries@));
        }
        self.registered_paths = Some(table);
    }

    /// Takes what the caller read from the file of the table.
    ///
    /// `content` is the text of the file, `None` if the file does not
    /// exist, or the message of the error with which it could not be
    /// read. A manager whose table is loaded ignores it. A missing file is
    /// no error and leaves the manager without a table; the caller creates
    /// the file. A text that is no JSON object of strings is refused.
    pub fn load(&mut self, content: Result<Option<String>, String>) -> (result: Result<(), DependencyManagerError>)
        ensures
            final(self)@.wf(),
            final(self)@ == old(self)@.after_load(
                match content {
                    Ok(Some(text)) => Some(text@),
                    _ => None,
                },
            ),
            match result {
                Ok(_) => old(self)@.registered_paths is Some || match content {
                    Ok(Some(text)) => parsed_paths(text@) is Ok,
                    Ok(None) => true,
                    Err(_) => false,
                },
                Err(DependencyManagerError::IoError(message)) => {
                    &&& old(self)@.registered_paths is None
                    &&& content matches Err(m)
                    &&& m@ == message@
                },
                Err(DependencyManagerError::SerdeError(message)) => {
                    &&& old(self)@.registered_paths is None
                    &&& content matches Ok(Some(text))
                    &&& parsed_paths(text@) == Err::<Option<Entries>, Seq<char>>(message@)
                },
                Err(DependencyManagerError::NotFoundError) => false,
            },
    {
        proof {
            use_type_invariant(&*self);
        }
        if self.registered_paths.is_some() {
            return Ok(());
        }
        match content {
            Err(message) => Err(DependencyManagerError::IoError(message)),
            Ok(None) => Ok(()),
            Ok(Some(text)) => match parse_paths(text.as_str()) {
                Err(message) => Err(DependencyManagerError::SerdeError(message)),
                Ok(None) => Ok(()),
                Ok(Some(entries)) => {
                    self.install(entries);
                    Ok(())
                },
            },
        }
    }

    /// The text that is to be written to the file of the table.
    pub fn save(&self) -> (result: Result<String, DependencyManagerError>)
        ensures
            result is Ok,
            result->Ok_0@ == rendered_paths(self@.registered_paths),
    {
        match render_paths(&self.registered_paths) {
            Ok(text) => Ok(text),
            Err(message) => Err(DependencyManagerError::SerdeError(message)),
        }
    }

    /// Registers `path` under `name` and returns the text that is to be
    /// written to the file of the table.
    ///
    /// The path takes the place of the one that was registered under the
    /// name, or joins the table behind its entries. A manager whose table
    /// is not loaded registers nothing.
    pub fn register(&mut self, name: String, path: String) -> (result: Result<String, DependencyManagerError>)
        ensures
            final(self)@ == old(self)@.after_register(name@, path@),
            final(self)@.wf(),
            result is Ok,
            result->Ok_0@ == rendered_paths(final(self)@.registered_paths),
    {
        proof {
            use_type_invariant(&*self);
            if self@.registered_paths is Some {
                lemma_upsert(self@.registered_paths->Some_0, name@, path@, name@);
            }
        }
        let mut table: Option<Vec<(String, String)>> = None;
        std::mem::swap(&mut self.registered_paths, &mut table);
        match table {
            Some(mut entries) => {
                put_entry(&mut entries, name, path);
                self.registered_paths = Some(entries);
            },
            None => {},
        }
        self.save()
    }

    /// The path that is registered under `name`.
    pub fn get(&self, name: &str) -> (result: Result<&String, DependencyManagerError>)
        ensures
            match result {
                Ok(path) => self@.path_of(name@) == Some(path@),
                Err(e) => self@.path_of(name@) is None && e is NotFoundError,
            },
    {
        match &self.registered_paths {
            Some(entries) => {
                let k = find_name(entries, name);
                if k < entries.len() {
                    Ok(&entries[k].1)
                } else {
                    Err(DependencyManagerError::NotFoundError)
                }
            },
            None => Err(DependencyManagerError::NotFoundError),
        }
    }
}

} // verus!
