//! The command cache: which command was accepted for which prompt.

use crate::text::same_text;
use std::collections::BTreeMap;
use vstd::prelude::*;

verus! {

#[verifier::external_type_specification]
#[verifier::external_body]
pub struct ExJsonError(serde_json::Error);

/// One remembered answer: the command that was accepted for a prompt.
#[derive(Debug, PartialEq, Eq)]
pub struct CacheEntry {
    /// The prompt, exactly as the user typed it.
    pub prompt: String,
    /// The command that was accepted for it.
    pub command: String,
}

/// The mapping that a list of entries stands for. Where a prompt occurs
/// more than once, the entry nearest the end counts.
pub open spec fn entries_map(entries: Seq<CacheEntry>) -> Map<Seq<char>, Seq<char>>
    decreases entries.len(),
{
    if entries.len() == 0 {
        Map::empty()
    } else {
        entries_map(entries.drop_last()).insert(entries.last().prompt@, entries.last().command@)
    }
}

/// No prompt occurs in two entries.
pub open spec fn distinct_prompts(entries: Seq<CacheEntry>) -> bool {
    forall|i: int, j: int|
        0 <= i < j < entries.len() ==> (#[trigger] entries[i]).prompt@ != (
        #[trigger] entries[j]).prompt@
}

/// Distinct prompts stay distinct when the last entry is left out.
pub proof fn lemma_distinct_front(entries: Seq<CacheEntry>)
    requires
        distinct_prompts(entries),
        entries.len() > 0,
    ensures
        distinct_prompts(entries.drop_last()),
{
    let front = entries.drop_last();
    assert forall|a: int, b: int| 0 <= a < b < front.len() implies (#[trigger] front[a]).prompt@
        != (#[trigger] front[b]).prompt@ by {
        assert(entries[a].prompt@ != entries[b].prompt@);
    }
}

/// A prompt is a key of the mapping exactly when some entry holds it.
pub proof fn lemma_map_keys(entries: Seq<CacheEntry>, prompt: Seq<char>)
    ensures
        entries_map(entries).contains_key(prompt) <==> exists|i: int|
            0 <= i < entries.len() && (#[trigger] entries[i]).prompt@ == prompt,
    decreases entries.len(),
{
    if entries.len() > 0 {
        let front = entries.drop_last();
        lemma_map_keys(front, prompt);
        if entries_map(entries).contains_key(prompt) {
            if entries.last().prompt@ == prompt {
                assert(entries[entries.len() - 1].prompt@ == prompt);
            } else {
                let i = choose|i: int|
                    0 <= i < front.len() && (#[trigger] front[i]).prompt@ == prompt;
                assert(entries[i].prompt@ == prompt);
            }
        }
        if exists|i: int| 0 <= i < entries.len() && (#[trigger] entries[i]).prompt@ == prompt {
            let i = choose|i: int|
                0 <= i < entries.len() && (#[trigger] entries[i]).prompt@ == prompt;
            if i < front.len() {
                assert(front[i].prompt@ == prompt);
            }
        }
    }
}

/// With distinct prompts, each entry's command is what the mapping holds
/// for its prompt.
pub proof fn lemma_map_value(entries: Seq<CacheEntry>, i: int)
    requires
        distinct_prompts(entries),
        0 <= i < entries.len(),
    ensures
        entries_map(entries).contains_key(entries[i].prompt@),
        entries_map(entries)[entries[i].prompt@] == entries[i].command@,
    decreases entries.len(),
{
    let front = entries.drop_last();
    if i < entries.len() - 1 {
        lemma_distinct_front(entries);
        lemma_map_value(front, i);
        assert(entries[i].prompt@ != entries[entries.len() - 1].prompt@);
    }
}

/// With distinct prompts, the mapping has one key for each entry.
pub proof fn lemma_map_len(entries: Seq<CacheEntry>)
    requires
        distinct_prompts(entries),
    ensures
        entries_map(entries).dom().finite(),
        entries_map(entries).len() == entries.len(),
    decreases entries.len(),
{
    if entries.len() > 0 {
        let front = entries.drop_last();
        lemma_distinct_front(entries);
        lemma_map_len(front);
        lemma_map_keys(front, entries.last().prompt@);
        if entries_map(front).contains_key(entries.last().prompt@) {
            let i = choose|i: int|
                0 <= i < front.len() && (#[trigger] front[i]).prompt@ == entries.last().prompt@;
            assert(entries[i].prompt@ != entries[entries.len() - 1].prompt@);
        }
    }
}

/// Replacing the command of entry `i` replaces the mapping's value for its
/// prompt.
pub proof fn lemma_map_update(entries: Seq<CacheEntry>, i: int, entry: CacheEntry)
    requires
        distinct_prompts(entries),
        0 <= i < entries.len(),
        entry.prompt@ == entries[i].prompt@,
    ensures
        distinct_prompts(entries.update(i, entry)),
        entries_map(entries.update(i, entry)) == entries_map(entries).insert(
            entry.prompt@,
            entry.command@,
        ),
    decreases entries.len(),
{
    let updated = entries.update(i, entry);
    assert(distinct_prompts(updated)) by {
        assert forall|a: int, b: int| 0 <= a < b < updated.len() implies (
        #[trigger] updated[a]).prompt@ != (#[trigger] updated[b]).prompt@ by {
            assert(entries[a].prompt@ != entries[b].prompt@);
        }
    }
    let front = entries.drop_last();
    if i == entries.len() - 1 {
        assert(updated.drop_last() =~= front);
        assert(entries_map(updated) =~= entries_map(entries).insert(entry.prompt@, entry.command@));
    } else {
        lemma_distinct_front(entries);
        lemma_map_update(front, i, entry);
        assert(updated.drop_last() =~= front.update(i, entry));
        assert(entries[i].prompt@ != entries[entries.len() - 1].prompt@);
        assert(entries_map(updated) =~= entries_map(entries).insert(entry.prompt@, entry.command@));
    }
}

/// Taking entry `i` out takes its prompt out of the mapping.
pub proof fn lemma_map_remove(entries: Seq<CacheEntry>, i: int)
    requires
        distinct_prompts(entries),
        0 <= i < entries.len(),
    ensures
        distinct_prompts(entries.remove(i)),
        entries_map(entries.remove(i)) == entries_map(entries).remove(entries[i].prompt@),
    decreases entries.len(),
{
    let removed = entries.remove(i);
    assert(distinct_prompts(removed)) by {
        assert forall|a: int, b: int| 0 <= a < b < removed.len() implies (
        #[trigger] removed[a]).prompt@ != (#[trigger] removed[b]).prompt@ by {
            let a0 = if a < i { a } else { a + 1 };
            let b0 = if b < i { b } else { b + 1 };
            assert(entries[a0].prompt@ != entries[b0].prompt@);
        }
    }
    let front = entries.drop_last();
    lemma_distinct_front(entries);
    if i == entries.len() - 1 {
        assert(removed =~= front);
        lemma_map_keys(front, entries[i].prompt@);
        if entries_map(front).contains_key(entries[i].prompt@) {
            let j = choose|j: int|
                0 <= j < front.len() && (#[trigger] front[j]).prompt@ == entries[i].prompt@;
            assert(entries[j].prompt@ != entries[i].prompt@);
        }
        assert(entries_map(removed) =~= entries_map(entries).remove(entries[i].prompt@));
    } else {
        lemma_map_remove(front, i);
        assert(removed.drop_last() =~= front.remove(i));
        assert(removed.last() == entries.last());
        assert(entries[i].prompt@ != entries[entries.len() - 1].prompt@);
        assert(entries_map(removed) =~= entries_map(entries).remove(entries[i].prompt@));
    }
}

/// The commands that were accepted so far, by prompt. A prompt is looked up
/// as it was typed: nothing is trimmed and no case is folded.
pub struct CommandCache {
    entries: Vec<CacheEntry>,
}

impl View for CommandCache {
    type V = Map<Seq<char>, Seq<char>>;

    closed spec fn view(&self) -> Map<Seq<char>, Seq<char>> {
        entries_map(self.entries@)
    }
}

impl CommandCache {
    #[verifier::type_invariant]
    spec fn prompts_are_distinct(self) -> bool {
        distinct_prompts(self.entries@)
    }

    /// A cache that holds nothing.
    pub fn new() -> (cache: CommandCache)
        ensures
            cache@ == Map::<Seq<char>, Seq<char>>::empty(),
    {
        CommandCache { entries: Vec::new() }
    }

    /// Where `prompt` stands among the entries, if it does.
    fn position(&self, prompt: &str) -> (found: Option<usize>)
        ensures
            match found {
                Some(i) => i < self.entries@.len() && self.entries@[i as int].prompt@ == prompt@,
                None => forall|i: int|
                    0 <= i < self.entries@.len() ==> (#[trigger] self.entries@[i]).prompt@
                        != prompt@,
            },
    {
        let mut i: usize = 0;
        while i < self.entries.len()
            invariant
                i <= self.entries@.len(),
                forall|j: int| 0 <= j < i ==> (#[trigger] self.entries@[j]).prompt@ != prompt@,
            decreases self.entries@.len() - i,
        {
            if same_text(self.entries[i].prompt.as_str(), prompt) {
                return Some(i);
            }
            i += 1;
        }
        None
    }

    /// The command that was accepted for exactly this prompt, if any.
    pub fn lookup(&self, prompt: &str) -> (command: Option<&String>)
        ensures
            match command {
                Some(c) => self@.contains_key(prompt@) && c@ == self@[prompt@],
                None => !self@.contains_key(prompt@),
            },
    {
        proof {
            use_type_invariant(self);
            lemma_map_keys(self.entries@, prompt@);
        }
        match self.position(prompt) {
            Some(i) => {
                proof {
                    lemma_map_value(self.entries@, i as int);
                }
                Some(&self.entries[i].command)
            },
            None => None,
        }
    }

    /// How many prompts have a command.
    pub fn len(&self) -> (count: usize)
        ensures
            self@.dom().finite(),
            count == self@.len(),
    {
        proof {
            use_type_invariant(self);
            lemma_map_len(self.entries@);
        }
        self.entries.len()
    }

    /// Remembers `command` for `prompt`, in place of what was there.
    pub fn insert(&mut self, prompt: String, command: String)
        ensures
            final(self)@ == old(self)@.insert(prompt@, command@),
    {
        proof {
            use_type_invariant(&*self);
        }
        let entry = CacheEntry { prompt, command };
        let found = self.position(entry.prompt.as_str());
        let mut entries: Vec<CacheEntry> = Vec::new();
        core::mem::swap(&mut self.entries, &mut entries);
        match found {
            Some(i) => {
                proof {
                    lemma_map_update(entries@, i as int, entry);
                }
                entries[i] = entry;
            },
            None => {
                assert(entries@.push(entry).drop_last() =~= entries@);
                entries.push(entry);
            },
        }
        core::mem::swap(&mut self.entries, &mut entries);
    }

    /// Forgets the command for `prompt`. Where there is none, nothing
    /// changes.
    pub fn invalidate(&mut self, prompt: &str)
        ensures
            final(self)@ == old(self)@.remove(prompt@),
            !old(self)@.contains_key(prompt@) ==> final(self)@ == old(self)@,
    {
        proof {
            use_type_invariant(&*self);
            lemma_map_keys(self.entries@, prompt@);
        }
        let found = self.position(prompt);
        let mut entries: Vec<CacheEntry> = Vec::new();
        core::mem::swap(&mut self.entries, &mut entries);
        match found {
            Some(i) => {
                proof {
                    lemma_map_remove(entries@, i as int);
                }
                entries.remove(i);
            },
            None => {},
        }
        assert(!entries_map(old(self).entries@).contains_key(prompt@) ==> entries_map(
            old(self).entries@,
        ).remove(prompt@) =~= entries_map(old(self).entries@));
        core::mem::swap(&mut self.entries, &mut entries);
    }

    /// The cache that holds the given entries. Where a prompt occurs more
    /// than once, the entry nearest the end counts.
    pub fn from_entries(entries: Vec<CacheEntry>) -> (cache: CommandCache)
        ensures
            cache@ == entries_map(entries@),
    {
        let mut cache = CommandCache::new();
        let ghost all = entries@;
        for entry in it: entries
            invariant
                it.seq() == all,
                cache@ == entries_map(all.subrange(0, it.index() as int)),
        {
            let ghost before = all.subrange(0, it.index() as int);
            let ghost after = all.subrange(0, it.index() + 1);
            assert(after.drop_last() =~= before);
            assert(after.last() == entry);
            cache.insert(entry.prompt, entry.command);
        }
        assert(all.subrange(0, all.len() as int) =~= all);
        cache
    }
}

/// Lookup is by the exact prompt: remembering a command for one prompt
/// changes the answer for no other prompt, and a prompt that differs from
/// another in one character, be it a blank at its end, is another prompt.
pub proof fn theorem_lookup_is_exact(
    cache: Map<Seq<char>, Seq<char>>,
    prompt: Seq<char>,
    command: Seq<char>,
    other: Seq<char>,
    extra: char,
    at: int,
)
    ensures
        other != prompt ==> (cache.insert(prompt, command).contains_key(other)
            <==> cache.contains_key(other)),
        other != prompt && cache.contains_key(other) ==> cache.insert(prompt, command)[other]
            == cache[other],
        other != prompt && !cache.contains_key(other) ==> !cache.insert(
            prompt,
            command,
        ).contains_key(other),
        prompt.push(extra) != prompt,
        0 <= at < prompt.len() && prompt[at] != extra ==> prompt.update(at, extra) != prompt,
        0 <= at < prompt.len() ==> prompt.remove(at) != prompt,
{
    assert(prompt.push(extra).len() != prompt.len());
    if 0 <= at < prompt.len() {
        assert(prompt.update(at, extra)[at] == extra);
        assert(prompt.remove(at).len() != prompt.len());
    }
}

/// The mapping that `serde_json::from_str` reads from a text that holds a
/// JSON object of strings; `None` where it reads none.
pub uninterp spec fn decoded_cache(text: Seq<char>) -> Option<Map<Seq<char>, Seq<char>>>;

/// The text that `serde_json::to_string_pretty` writes for a mapping from
/// strings to strings; `None` where it writes none.
pub uninterp spec fn encoded_cache(entries: Map<Seq<char>, Seq<char>>) -> Option<Seq<char>>;

/// Calls `serde_json::from_str` for a map from strings to strings. The
/// contract only names the result: the entries that come back stand for the
/// mapping read from the text, and an error comes back where none is read.
#[verifier::external_body]
fn decode_entries(text: &str) -> (decoded: Result<Vec<CacheEntry>, serde_json::Error>)
    ensures
        match decoded {
            Ok(entries) => decoded_cache(text@) == Some(entries_map(entries@)),
            Err(_) => decoded_cache(text@) is None,
        },
{
    let map = serde_json::from_str::<BTreeMap<String, String>>(text)?;
    Ok(map.into_iter().map(|(prompt, command)| CacheEntry { prompt, command }).collect())
}

/// Calls `serde_json::to_string_pretty` on the entries as a map from
/// strings to strings, with its keys in order. The contract only names the
/// result: the text written for the mapping that the entries stand for, or
/// an error where none is written.
#[verifier::external_body]
fn encode_entries(entries: &Vec<CacheEntry>) -> (encoded: Result<String, serde_json::Error>)
    requires
        distinct_prompts(entries@),
    ensures
        match encoded {
            Ok(text) => encoded_cache(entries_map(entries@)) == Some(text@),
            Err(_) => encoded_cache(entries_map(entries@)) is None,
        },
{
    let map: BTreeMap<&str, &str> =
        entries.iter().map(|e| (e.prompt.as_str(), e.command.as_str())).collect();
    serde_json::to_string_pretty(&map)
}

/// What a stored text, or its absence, leaves in the cache: the mapping
/// read from it, or nothing where there is no text or none can be read.
pub open spec fn loaded_cache(content: Option<Seq<char>>) -> Map<Seq<char>, Seq<char>> {
    match content {
        Some(text) => match decoded_cache(text) {
            Some(entries) => entries,
            None => Map::empty(),
        },
        None => Map::empty(),
    }
}

/// Without a store that can be read the cache starts empty, and works as
/// any other: the first command that is remembered is then all it holds.
pub proof fn theorem_unreadable_store_is_empty(
    text: Seq<char>,
    prompt: Seq<char>,
    command: Seq<char>,
)
    ensures
        loaded_cache(None) == Map::<Seq<char>, Seq<char>>::empty(),
        decoded_cache(text) is None ==> loaded_cache(Some(text)) == Map::<
            Seq<char>,
            Seq<char>,
        >::empty(),
        !loaded_cache(None).contains_key(prompt),
        loaded_cache(None).insert(prompt, command).dom() == set![prompt],
        loaded_cache(None).insert(prompt, command)[prompt] == command,
{
    assert(loaded_cache(None).insert(prompt, command).dom() =~= set![prompt]);
}

/// The characters of a stored text, where there is one.
pub open spec fn stored_text(content: Option<&str>) -> Option<Seq<char>> {
    match content {
        Some(text) => Some(text@),
        None => None,
    }
}

/// The cache that the stored text describes. A missing text, or one that
/// does not hold a mapping from strings to strings, gives an empty cache.
pub fn load_cache(content: Option<&str>) -> (cache: CommandCache)
    ensures
        cache@ == loaded_cache(stored_text(content)),
{
    match content {
        Some(text) => match decode_entries(text) {
            Ok(entries) => CommandCache::from_entries(entries),
            Err(_) => CommandCache::new(),
        },
        None => CommandCache::new(),
    }
}

/// The text to store for the cache, all of it; `None` where it cannot be
/// written down.
pub fn save_cache(cache: &CommandCache) -> (content: Option<String>)
    ensures
        match content {
            Some(text) => encoded_cache(cache@) == Some(text@),
            None => encoded_cache(cache@) is None,
        },
{
    proof {
        use_type_invariant(cache);
    }
    match encode_entries(&cache.entries) {
        Ok(text) => Some(text),
        Err(_) => None,
    }
}

} // verus!
