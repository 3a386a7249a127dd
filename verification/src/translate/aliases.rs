//! Model aliases: a client-facing model name mapped to a provider and the
//! provider's own model name, with an optional `*` wildcard.

use vstd::prelude::*;
use crate::text::{first_index_of, lemma_first_index_absent, lemma_first_index_at, owned, split_once_char, str_eq};

verus! {

/// Where an alias points: a provider name and the upstream model name.
pub struct ModelAlias {
    pub provider: String,
    pub model: String,
}

/// The model of a [`ModelAlias`].
pub struct ModelAliasModel {
    pub provider: Seq<char>,
    pub model: Seq<char>,
}

impl View for ModelAlias {
    type V = ModelAliasModel;

    open spec fn view(&self) -> ModelAliasModel {
        ModelAliasModel { provider: self.provider@, model: self.model@ }
    }
}

impl Clone for ModelAlias {
    fn clone(&self) -> (r: Self)
        ensures
            r@ == self@,
    {
        ModelAlias { provider: self.provider.clone(), model: self.model.clone() }
    }
}

/// The key under which the wildcard target is listed.
pub open spec fn wildcard_key() -> Seq<char> {
    seq!['*']
}

/// What `alias=provider/model` parses to: the alias is everything before
/// the first `=`, the provider everything between it and the first `/`
/// after it, and the model the rest.
pub open spec fn parse_alias_spec(raw: Seq<char>) -> Option<(Seq<char>, ModelAliasModel)> {
    match first_index_of(raw, '=') {
        None => None,
        Some(i) => {
            let target = raw.subrange(i + 1, raw.len() as int);
            match first_index_of(target, '/') {
                None => None,
                Some(j) => Some(
                    (
                        raw.subrange(0, i),
                        ModelAliasModel {
                            provider: target.subrange(0, j),
                            model: target.subrange(j + 1, target.len() as int),
                        },
                    ),
                ),
            }
        },
    }
}

impl ModelAlias {
    /// Parses `alias=provider/model` (the `--model-alias` command-line form).
    pub fn parse(raw: &str) -> (r: Option<(String, ModelAlias)>)
        ensures
            match r {
                Some((a, t)) => parse_alias_spec(raw@) == Some((a@, t@)),
                None => parse_alias_spec(raw@) is None,
            },
    {
        let (alias, target) = split_once_char(raw, '=')?;
        let (provider, model) = split_once_char(target.as_str(), '/')?;
        Some((alias, ModelAlias { provider, model }))
    }
}

/// The model of a [`ModelAliasMap`]: named aliases and the wildcard target.
pub struct ModelAliasMapModel {
    pub aliases: Map<Seq<char>, ModelAliasModel>,
    pub wildcard: Option<ModelAliasModel>,
}

/// The target a model name resolves to: its alias when it has one, else
/// the wildcard (if any).
pub open spec fn resolve_spec(m: ModelAliasMapModel, model: Seq<char>) -> Option<ModelAliasModel> {
    if m.aliases.contains_key(model) {
        Some(m.aliases[model])
    } else {
        m.wildcard
    }
}

/// The map after `insert(alias, target)`: `*` sets the wildcard, any other
/// alias is added or replaced.
pub open spec fn insert_spec(m: ModelAliasMapModel, alias: Seq<char>, target: ModelAliasModel) -> ModelAliasMapModel {
    if alias == wildcard_key() {
        ModelAliasMapModel { aliases: m.aliases, wildcard: Some(target) }
    } else {
        ModelAliasMapModel { aliases: m.aliases.insert(alias, target), wildcard: m.wildcard }
    }
}

/// A table of model aliases with an optional `*` wildcard.
pub struct ModelAliasMap {
    aliases: Vec<(String, ModelAlias)>,
    wildcard: Option<ModelAlias>,
}

/// The map that a list of distinct `(key, value)` pairs describes.
pub open spec fn pairs_map(s: Seq<(Seq<char>, ModelAliasModel)>) -> Map<Seq<char>, ModelAliasModel>
    decreases s.len(),
{
    if s.len() == 0 {
        Map::empty()
    } else {
        pairs_map(s.drop_last()).insert(s.last().0, s.last().1)
    }
}

/// Model of the stored entries.
pub open spec fn entries_model(v: Seq<(String, ModelAlias)>) -> Seq<(Seq<char>, ModelAliasModel)> {
    v.map_values(|p: (String, ModelAlias)| (p.0@, p.1@))
}

/// Whether no key occurs twice.
pub open spec fn distinct_keys(s: Seq<(Seq<char>, ModelAliasModel)>) -> bool {
    forall|i: int, j: int| 0 <= i < s.len() && 0 <= j < s.len() && i != j ==> s[i].0 != s[j].0
}

proof fn lemma_pairs_map_lookup(s: Seq<(Seq<char>, ModelAliasModel)>, k: Seq<char>)
    requires
        distinct_keys(s),
    ensures
        pairs_map(s).contains_key(k) <==> exists|i: int| 0 <= i < s.len() && s[i].0 == k,
        forall|i: int| 0 <= i < s.len() && s[i].0 == k ==> pairs_map(s)[k] == s[i].1,
    decreases s.len(),
{
    if s.len() > 0 {
        let t = s.drop_last();
        assert(distinct_keys(t));
        lemma_pairs_map_lookup(t, k);
        if pairs_map(s).contains_key(k) && s.last().0 != k {
            let i = choose|i: int| 0 <= i < t.len() && t[i].0 == k;
            assert(s[i] == t[i]);
        }
        assert forall|i: int| 0 <= i < t.len() && t[i].0 == k implies s[i].0 == k by {
            assert(s[i] == t[i]);
        }
        if s.last().0 == k {
            assert forall|i: int| 0 <= i < s.len() && s[i].0 == k implies i == s.len() - 1 by {}
        } else {
            assert forall|i: int| 0 <= i < s.len() && s[i].0 == k implies i < s.len() - 1 && t[i]
                == s[i] by {}
        }
    }
}

proof fn lemma_pairs_map_at(s: Seq<(Seq<char>, ModelAliasModel)>, i: int)
    requires
        distinct_keys(s),
        0 <= i < s.len(),
    ensures
        pairs_map(s).contains_key(s[i].0),
        pairs_map(s)[s[i].0] == s[i].1,
{
    lemma_pairs_map_lookup(s, s[i].0);
}

proof fn lemma_entries_push(v: Seq<(String, ModelAlias)>, x: (String, ModelAlias))
    ensures
        entries_model(v.push(x)) == entries_model(v).push((x.0@, x.1@)),
{
    assert(entries_model(v.push(x)) =~= entries_model(v).push((x.0@, x.1@)));
}

proof fn lemma_pairs_map_update(s: Seq<(Seq<char>, ModelAliasModel)>, i: int, v: ModelAliasModel)
    requires
        distinct_keys(s),
        0 <= i < s.len(),
    ensures
        pairs_map(s.update(i, (s[i].0, v))) == pairs_map(s).insert(s[i].0, v),
    decreases s.len(),
{
    let u = s.update(i, (s[i].0, v));
    if i == s.len() - 1 {
        assert(u.drop_last() =~= s.drop_last());
        let t = s.drop_last();
        assert(distinct_keys(t));
        lemma_pairs_map_lookup(t, s[i].0);
        assert forall|j: int| 0 <= j < t.len() implies t[j].0 != s[i].0 by {
            assert(t[j] == s[j]);
        }
        assert(pairs_map(s).insert(s[i].0, v) =~= pairs_map(t).insert(s[i].0, v));
    } else {
        let t = s.drop_last();
        assert(distinct_keys(t));
        lemma_pairs_map_update(t, i, v);
        assert(u.drop_last() =~= t.update(i, (t[i].0, v)));
        assert(u.last() == s.last());
        assert(s.last().0 != s[i].0);
        assert(pairs_map(u) =~= pairs_map(s).insert(s[i].0, v));
    }
}

impl View for ModelAliasMap {
    type V = ModelAliasMapModel;

    closed spec fn view(&self) -> ModelAliasMapModel {
        ModelAliasMapModel {
            aliases: pairs_map(entries_model(self.aliases@)),
            wildcard: match self.wildcard {
                Some(w) => Some(w@),
                None => None,
            },
        }
    }
}

impl ModelAliasMap {
    /// Stored keys are distinct and none is the wildcard key.
    #[verifier::type_invariant]
    spec fn wf(self) -> bool {
        &&& distinct_keys(entries_model(self.aliases@))
        &&& forall|i: int| 0 <= i < self.aliases@.len() ==> self.aliases@[i].0@ != wildcard_key()
    }

    /// An empty table.
    pub fn new() -> (r: Self)
        ensures
            r@.aliases == Map::<Seq<char>, ModelAliasModel>::empty(),
            r@.wildcard is None,
    {
        ModelAliasMap { aliases: Vec::new(), wildcard: None }
    }

    /// Index of the entry stored under `key`.
    fn position(&self, key: &str) -> (r: Option<usize>)
        ensures
            match r {
                Some(i) => i < self.aliases@.len() && self.aliases@[i as int].0@ == key@,
                None => forall|j: int| 0 <= j < self.aliases@.len() ==> self.aliases@[j].0@ != key@,
            },
    {
        let mut i: usize = 0;
        while i < self.aliases.len()
            invariant
                i <= self.aliases.len(),
                forall|j: int| 0 <= j < i ==> self.aliases@[j].0@ != key@,
            decreases self.aliases.len() - i,
        {
            if str_eq(self.aliases[i].0.as_str(), key) {
                return Some(i);
            }
            i += 1;
        }
        None
    }

    /// Adds or replaces an alias; `*` sets the wildcard.
    pub fn insert(&mut self, alias: &str, target: ModelAlias)
        ensures
            final(self)@ == insert_spec(old(self)@, alias@, target@),
    {
        proof {
            use_type_invariant(&*self);
            reveal_strlit("*");
            assert("*"@ =~= wildcard_key());
        }
        if str_eq(alias, "*") {
            assert(alias@ =~= wildcard_key());
            self.wildcard = Some(target);
            return ;
        }
        assert(alias@ != wildcard_key());
        let ghost old_entries = entries_model(self.aliases@);
        let ghost before = self.aliases@;
        let pos = self.position(alias);
        let mut aliases: Vec<(String, ModelAlias)> = Vec::new();
        std::mem::swap(&mut aliases, &mut self.aliases);
        assert(aliases@ == before);
        match pos {
            Some(i) => {
                let key = aliases[i].0.clone();
                aliases.set(i, (key, target));
                proof {
                    assert(old_entries[i as int].0 == alias@);
                    assert(entries_model(aliases@) =~= old_entries.update(
                        i as int,
                        (old_entries[i as int].0, target@),
                    ));
                    lemma_pairs_map_update(old_entries, i as int, target@);
                    assert forall|a: int, b: int|
                        0 <= a < aliases@.len() && 0 <= b < aliases@.len() && a != b implies entries_model(
                        aliases@,
                    )[a].0 != entries_model(aliases@)[b].0 by {
                        assert(entries_model(aliases@)[a].0 == old_entries[a].0);
                        assert(entries_model(aliases@)[b].0 == old_entries[b].0);
                    }
                    assert forall|a: int| 0 <= a < aliases@.len() implies aliases@[a].0@
                        != wildcard_key() by {
                        assert(aliases@[a].0@ == before[a].0@);
                    }
                }
            },
            None => {
                aliases.push((owned(alias), target));
                proof {
                    assert(entries_model(aliases@) =~= old_entries.push((alias@, target@)));
                    assert(entries_model(aliases@).drop_last() =~= old_entries);
                    assert forall|a: int, b: int|
                        0 <= a < aliases@.len() && 0 <= b < aliases@.len() && a != b implies entries_model(
                        aliases@,
                    )[a].0 != entries_model(aliases@)[b].0 by {
                        if a < before.len() {
                            assert(entries_model(aliases@)[a].0 == before[a].0@);
                        }
                        if b < before.len() {
                            assert(entries_model(aliases@)[b].0 == before[b].0@);
                        }
                    }
                    assert forall|a: int| 0 <= a < aliases@.len() implies aliases@[a].0@
                        != wildcard_key() by {
                        if a < before.len() {
                            assert(aliases@[a] == before[a]);
                        }
                    }
                }
            },
        }
        self.aliases = aliases;
    }

    /// The target of a model name: its alias, else the wildcard, else `None`.
    pub fn resolve(&self, model: &str) -> (r: Option<&ModelAlias>)
        ensures
            match r {
                Some(t) => resolve_spec(self@, model@) == Some(t@),
                None => resolve_spec(self@, model@) is None,
            },
    {
        proof {
            use_type_invariant(self);
            lemma_pairs_map_lookup(entries_model(self.aliases@), model@);
        }
        let mut i: usize = 0;
        while i < self.aliases.len()
            invariant
                i <= self.aliases.len(),
                forall|j: int| 0 <= j < i ==> self.aliases@[j].0@ != model@,
                distinct_keys(entries_model(self.aliases@)),
            decreases self.aliases.len() - i,
        {
            if str_eq(self.aliases[i].0.as_str(), model) {
                proof {
                    assert(entries_model(self.aliases@)[i as int] == (
                        self.aliases@[i as int].0@,
                        self.aliases@[i as int].1@,
                    ));
                    lemma_pairs_map_at(entries_model(self.aliases@), i as int);
                }
                return Some(&self.aliases[i].1);
            }
            i += 1;
        }
        proof {
            assert forall|j: int| 0 <= j < self.aliases@.len() implies entries_model(
                self.aliases@,
            )[j].0 != model@ by {}
        }
        match &self.wildcard {
            Some(w) => Some(w),
            None => None,
        }
    }

    /// Whether there is neither an alias nor a wildcard.
    pub fn is_empty(&self) -> (r: bool)
        ensures
            r == (self@.aliases.is_empty() && self@.wildcard is None),
    {
        proof {
            use_type_invariant(self);
            let s = entries_model(self.aliases@);
            if s.len() > 0 {
                lemma_pairs_map_lookup(s, s[0].0);
                assert(self@.aliases.contains_key(s[0].0));
            } else {
                assert(self@.aliases =~= Map::<Seq<char>, ModelAliasModel>::empty());
            }
        }
        self.aliases.len() == 0 && self.wildcard.is_none()
    }

    /// Every entry: each alias once, then `("*", wildcard)` when there is a
    /// wildcard.
    pub fn iter(&self) -> (r: Vec<(String, ModelAlias)>)
        ensures
            ({
                let n = if self@.wildcard is Some { r@.len() - 1 } else { r@.len() as int };
                &&& 0 <= n
                &&& distinct_keys(entries_model(r@.take(n)))
                &&& forall|k: Seq<char>|
                    self@.aliases.contains_key(k) <==> exists|i: int| 0 <= i < n && r@[i].0@ == k
                &&& forall|i: int|
                    0 <= i < n ==> self@.aliases.contains_key(r@[i].0@) && self@.aliases[r@[i].0@]
                        == r@[i].1@
                &&& self@.wildcard matches Some(w) ==> r@[n].0@ == wildcard_key() && r@[n].1@ == w
            }),
    {
        proof {
            use_type_invariant(self);
        }
        let ghost s = entries_model(self.aliases@);
        let mut out: Vec<(String, ModelAlias)> = Vec::new();
        let mut i: usize = 0;
        while i < self.aliases.len()
            invariant
                i <= self.aliases.len(),
                s == entries_model(self.aliases@),
                entries_model(out@) == s.take(i as int),
            decreases self.aliases.len() - i,
        {
            let k = self.aliases[i].0.clone();
            let v = self.aliases[i].1.clone();
            let ghost prev = out@;
            out.push((k, v));
            proof {
                lemma_entries_push(prev, (k, v));
                assert(s.take(i + 1) =~= s.take(i as int).push(s[i as int]));
                assert(s[i as int] == (self.aliases@[i as int].0@, self.aliases@[i as int].1@));
                assert(entries_model(out@) =~= s.take(i + 1));
            }
            i += 1;
        }
        proof {
            assert(s.take(self.aliases.len() as int) =~= s);
            assert forall|k: Seq<char>| #[trigger] self@.aliases.contains_key(k) <==> exists|i: int|
                0 <= i < out@.len() && out@[i].0@ == k by {
                lemma_pairs_map_lookup(s, k);
                if self@.aliases.contains_key(k) {
                    let i = choose|i: int| 0 <= i < s.len() && s[i].0 == k;
                    assert(entries_model(out@)[i].0 == out@[i].0@);
                }
                if exists|i: int| 0 <= i < out@.len() && out@[i].0@ == k {
                    let i = choose|i: int| 0 <= i < out@.len() && out@[i].0@ == k;
                    assert(entries_model(out@)[i].0 == out@[i].0@);
                }
            }
            assert forall|i: int| 0 <= i < out@.len() implies self@.aliases.contains_key(out@[i].0@)
                && self@.aliases[out@[i].0@] == out@[i].1@ by {
                assert(entries_model(out@)[i] == (out@[i].0@, out@[i].1@));
                lemma_pairs_map_lookup(s, out@[i].0@);
            }
        }
        let ghost n = out@.len();
        let ghost pre = out@;
        assert(entries_model(pre) == s);
        match &self.wildcard {
            Some(w) => {
                out.push((owned("*"), w.clone()));
                proof {
                    reveal_strlit("*");
                    assert(out@.take(n as int) =~= pre);
                    assert forall|i: int| 0 <= i < n implies out@[i] == out@.drop_last()[i] by {}
                }
            },
            None => {
                proof {
                    assert(out@.take(n as int) =~= out@);
                }
            },
        }
        out
    }
}

// ---------------------------------------------------------------------------
// Laws
// ---------------------------------------------------------------------------

/// An alias that was just inserted resolves to its target.
pub proof fn law_insert_then_resolve(m: ModelAliasMapModel, alias: Seq<char>, target: ModelAliasModel)
    requires
        alias != wildcard_key(),
    ensures
        resolve_spec(insert_spec(m, alias, target), alias) == Some(target),
{
}

/// Inserting an alias leaves every other name resolving as before.
pub proof fn law_insert_keeps_others(
    m: ModelAliasMapModel,
    alias: Seq<char>,
    target: ModelAliasModel,
    other: Seq<char>,
)
    requires
        alias != wildcard_key(),
        other != alias,
    ensures
        resolve_spec(insert_spec(m, alias, target), other) == resolve_spec(m, other),
{
}

/// After the wildcard is set, every name without an alias of its own
/// resolves to the wildcard target.
pub proof fn law_wildcard_catches_unaliased(m: ModelAliasMapModel, target: ModelAliasModel, model: Seq<char>)
    requires
        !m.aliases.contains_key(model),
    ensures
        resolve_spec(insert_spec(m, wildcard_key(), target), model) == Some(target),
{
}

/// A name resolves to nothing exactly when it has no alias and there is no
/// wildcard.
pub proof fn law_resolve_none(m: ModelAliasMapModel, model: Seq<char>)
    ensures
        resolve_spec(m, model) is None <==> (!m.aliases.contains_key(model) && m.wildcard is None),
{
}

/// `alias=provider/model` parses back into its three parts when the alias
/// holds no `=` and the provider no `/`.
pub proof fn law_parse_round_trip(alias: Seq<char>, provider: Seq<char>, model: Seq<char>)
    requires
        forall|i: int| 0 <= i < alias.len() ==> alias[i] != '=',
        forall|i: int| 0 <= i < provider.len() ==> provider[i] != '/',
    ensures
        parse_alias_spec(alias + seq!['='] + provider + seq!['/'] + model) == Some(
            (alias, ModelAliasModel { provider, model }),
        ),
{
    let raw = alias + seq!['='] + provider + seq!['/'] + model;
    lemma_first_index_at(raw, '=', alias.len() as int);
    let target = raw.subrange(alias.len() as int + 1, raw.len() as int);
    assert(target =~= provider + seq!['/'] + model);
    lemma_first_index_at(target, '/', provider.len() as int);
    assert(raw.subrange(0, alias.len() as int) =~= alias);
    assert(target.subrange(0, provider.len() as int) =~= provider);
    assert(target.subrange(provider.len() as int + 1, target.len() as int) =~= model);
}

/// Text without `=` does not parse.
pub proof fn law_parse_needs_equals(raw: Seq<char>)
    requires
        forall|i: int| 0 <= i < raw.len() ==> raw[i] != '=',
    ensures
        parse_alias_spec(raw) is None,
{
    lemma_first_index_absent(raw, '=');
}

/// The table that starts empty.
pub open spec fn empty_alias_map() -> ModelAliasMapModel {
    ModelAliasMapModel { aliases: Map::empty(), wildcard: None }
}

/// The table after a series of `insert(alias, target)` calls, in order.
pub open spec fn insert_all(m: ModelAliasMapModel, ops: Seq<(Seq<char>, ModelAliasModel)>) -> ModelAliasMapModel
    decreases ops.len(),
{
    if ops.len() == 0 {
        m
    } else {
        let last = ops.last();
        insert_spec(insert_all(m, ops.drop_last()), last.0, last.1)
    }
}

/// The target of the last insert under `key`, if any.
pub open spec fn last_target(ops: Seq<(Seq<char>, ModelAliasModel)>, key: Seq<char>) -> Option<ModelAliasModel>
    decreases ops.len(),
{
    if ops.len() == 0 {
        None
    } else if ops.last().0 == key {
        Some(ops.last().1)
    } else {
        last_target(ops.drop_last(), key)
    }
}

/// Whether a table holds neither an alias nor a wildcard.
pub open spec fn alias_map_is_empty(m: ModelAliasMapModel) -> bool {
    m.aliases.is_empty() && m.wildcard is None
}

proof fn lemma_insert_all_parts(ops: Seq<(Seq<char>, ModelAliasModel)>, x: Seq<char>)
    ensures
        insert_all(empty_alias_map(), ops).wildcard == last_target(ops, wildcard_key()),
        x != wildcard_key() ==> (insert_all(empty_alias_map(), ops).aliases.contains_key(x) <==> last_target(
            ops,
            x,
        ) is Some),
        x != wildcard_key() && last_target(ops, x) is Some ==> Some(insert_all(empty_alias_map(), ops).aliases[x])
            == last_target(ops, x),
        !insert_all(empty_alias_map(), ops).aliases.contains_key(wildcard_key()),
    decreases ops.len(),
{
    if ops.len() > 0 {
        lemma_insert_all_parts(ops.drop_last(), x);
    }
}

/// After a series of inserts into an empty table, a name resolves to the
/// target it was last inserted under (when it is not `*` and was inserted
/// at all), and otherwise to the target last inserted under `*`, if any.
pub proof fn law_inserts_then_resolve(ops: Seq<(Seq<char>, ModelAliasModel)>, x: Seq<char>)
    ensures
        resolve_spec(insert_all(empty_alias_map(), ops), x) == (if x != wildcard_key() && last_target(ops, x) is Some {
            last_target(ops, x)
        } else {
            last_target(ops, wildcard_key())
        }),
{
    lemma_insert_all_parts(ops, x);
}

/// Any insert leaves the table non-empty.
pub proof fn law_insert_not_empty(m: ModelAliasMapModel, alias: Seq<char>, target: ModelAliasModel)
    ensures
        !alias_map_is_empty(insert_spec(m, alias, target)),
{
    if alias != wildcard_key() {
        assert(insert_spec(m, alias, target).aliases.contains_key(alias));
    }
}

/// A table built from the empty one by a series of inserts is empty exactly
/// when there were none.
pub proof fn law_inserts_empty_iff_none(ops: Seq<(Seq<char>, ModelAliasModel)>)
    ensures
        alias_map_is_empty(insert_all(empty_alias_map(), ops)) <==> ops.len() == 0,
{
    if ops.len() > 0 {
        let last = ops.last();
        law_insert_not_empty(insert_all(empty_alias_map(), ops.drop_last()), last.0, last.1);
    } else {
        assert(empty_alias_map().aliases =~= Map::<Seq<char>, ModelAliasModel>::empty());
    }
}

} // verus!
