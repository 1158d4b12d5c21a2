//! Assigns each module specifier its identifier and tells external specifiers
//! from local ones.

use regex::Regex;
use vstd::prelude::*;
use vstd::string::*;
use crate::ident::{opt_string_view, Ident, IdentView, Mark};
use crate::module::seq_view;
use crate::pattern::{
    compile, compiled_from, compiles, is_alphanumeric, is_match, matches_somewhere, replace_all,
    with_others_replaced, NON_ALPHANUMERIC,
};

verus! {

/// The explicit remapping of specifiers: pairs of a specifier and the path
/// that stands for it. Where a specifier occurs more than once, its first
/// pair counts.
pub type ModuleIds = Vec<(String, String)>;

/// Why a configuration is refused.
#[derive(Clone, Copy, Debug, PartialEq, Eq, Hash, Structural)]
pub enum ConfigError {
    /// Neither the options nor the host name the module.
    MissingModuleId,
    /// The pattern of the external specifiers does not compile.
    ExternalPattern,
    /// The pattern of the characters that cannot stand in an identifier does
    /// not compile.
    NormalizePattern,
}

/// Why a resolver cannot be made with `external_pattern` as the pattern of
/// the external specifiers, if it cannot: first because that pattern does
/// not compile, then because the pattern of the characters that cannot stand
/// in an identifier does not.
pub open spec fn refusal(external_pattern: Option<Seq<char>>) -> Option<ConfigError> {
    if external_pattern matches Some(pattern) && !compiles(pattern) {
        Some(ConfigError::ExternalPattern)
    } else if !compiles(NON_ALPHANUMERIC@) {
        Some(ConfigError::NormalizePattern)
    } else {
        None
    }
}

/// The index of the first pair at or after `start` whose key is `key`.
pub open spec fn find_from<V>(pairs: Seq<(Seq<char>, V)>, key: Seq<char>, start: int) -> Option<
    int,
>
    decreases pairs.len() - start,
{
    if start < 0 || start >= pairs.len() {
        None
    } else if pairs[start].0 == key {
        Some(start)
    } else {
        find_from(pairs, key, start + 1)
    }
}

/// The index of the first pair whose key is `key`.
pub open spec fn find<V>(pairs: Seq<(Seq<char>, V)>, key: Seq<char>) -> Option<int> {
    find_from(pairs, key, 0)
}

/// Whether no two pairs have the same key.
pub open spec fn distinct_keys<V>(pairs: Seq<(Seq<char>, V)>) -> bool {
    forall|i: int, j: int|
        0 <= i < j < pairs.len() ==> (#[trigger] pairs[i]).0 != (#[trigger] pairs[j]).0
}

/// The spelling of the identifier of a specifier: the specifier behind an
/// underscore, with every character that is no ASCII letter or digit
/// replaced by an underscore.
pub open spec fn normalized(src: Seq<char>) -> Seq<char> {
    with_others_replaced(seq!['_'] + src, '_')
}

/// The spelling of an identifier can stand in an identifier: it begins with
/// an underscore, it has one character more than the specifier, and each of
/// its characters is an ASCII letter, a digit or an underscore.
pub proof fn lemma_normalized_is_a_name(src: Seq<char>)
    ensures
        normalized(src).len() == src.len() + 1,
        normalized(src)[0] == '_',
        forall|i: int|
            0 <= i < normalized(src).len() ==> is_alphanumeric(#[trigger] normalized(src)[i])
                || normalized(src)[i] == '_',
        forall|i: int|
            0 <= i < src.len() && is_alphanumeric(src[i]) ==> #[trigger] normalized(src)[i + 1]
                == src[i],
{
    let text = seq!['_'] + src;
    assert(text[0] == '_');
    assert forall|i: int| 0 <= i < src.len() && is_alphanumeric(src[i]) implies (
    #[trigger] normalized(src)[i + 1]) == src[i] by {
        assert(text[i + 1] == src[i]);
    }
}

/// The value of an optional remapping.
pub open spec fn opt_ids_view(o: Option<ModuleIds>) -> Option<Seq<(Seq<char>, Seq<char>)>> {
    match o {
        Some(ids) => Some(seq_view(ids)),
        None => None,
    }
}

/// The mathematical value of a [`ModuleResolver`].
pub struct ResolverView {
    /// The registered module paths with their identifiers, in the order of
    /// their registration.
    pub registered: Seq<(Seq<char>, IdentView)>,
    /// The pattern of the external specifiers, if there is one.
    pub external_pattern: Option<Seq<char>>,
    /// The explicit remapping of specifiers, if there is one.
    pub module_ids: Option<Seq<(Seq<char>, Seq<char>)>>,
}

impl ResolverView {
    /// Whether `src` is left to the host's own loader.
    pub open spec fn is_external(self, src: Seq<char>) -> bool {
        self.external_pattern matches Some(pattern) && matches_somewhere(pattern, src)
    }

    /// The path that the remapping gives to `src`, if it gives one; external
    /// specifiers are never remapped.
    pub open spec fn actual_path(self, src: Seq<char>, is_external: bool) -> Option<Seq<char>> {
        if is_external {
            None
        } else {
            match self.module_ids {
                Some(ids) => match find(ids, src) {
                    Some(k) => Some(ids[k].1),
                    None => None,
                },
                None => None,
            }
        }
    }

    /// The path under which `src` is registered.
    pub open spec fn path_of(self, src: Seq<char>, is_external: bool) -> Seq<char> {
        match self.actual_path(src, is_external) {
            Some(path) => path,
            None => src,
        }
    }

    /// The identifier that a first registration would give to a module, if
    /// the specifier that asks for it is `src`.
    pub open spec fn fresh_ident(self, src: Seq<char>) -> IdentView {
        IdentView { sym: normalized(src), mark: Mark::Module(self.registered.len() as usize) }
    }

    /// The resolver after `path` has been asked for, with `ident` at hand for
    /// a first registration.
    pub open spec fn with_registered(self, path: Seq<char>, ident: IdentView) -> ResolverView {
        match find(self.registered, path) {
            Some(_) => self,
            None => ResolverView { registered: self.registered.push((path, ident)), ..self },
        }
    }

    /// The identifier under which `path` is known, with `ident` at hand for a
    /// first registration.
    pub open spec fn ident_of(self, path: Seq<char>, ident: IdentView) -> IdentView {
        match find(self.registered, path) {
            Some(k) => self.registered[k].1,
            None => ident,
        }
    }

    /// The resolver after the identifier of `src` has been asked for.
    pub open spec fn after_request(self, src: Seq<char>, is_external: bool) -> ResolverView {
        self.with_registered(self.path_of(src, is_external), self.fresh_ident(src))
    }

    /// The identifier of `src`.
    pub open spec fn ident_by_src(self, src: Seq<char>, is_external: bool) -> IdentView {
        self.ident_of(self.path_of(src, is_external), self.fresh_ident(src))
    }

    /// Whether every registered module has a path and a binding of its own.
    pub open spec fn wf(self) -> bool {
        &&& distinct_keys(self.registered)
        &&& forall|k: int|
            0 <= k < self.registered.len() ==> (#[trigger] self.registered[k]).1.mark
                == Mark::Module(k as usize)
    }
}

/// Maps module specifiers to identifiers, and knows which specifiers are
/// external.
pub struct ModuleResolver {
    registered_idents: Vec<(String, Ident)>,
    external_pattern: Option<String>,
    external_regex: Option<Regex>,
    module_ids: Option<ModuleIds>,
    normalize_regex: Regex,
}

impl View for ModuleResolver {
    type V = ResolverView;

    closed spec fn view(&self) -> ResolverView {
        ResolverView {
            registered: seq_view(self.registered_idents),
            external_pattern: opt_string_view(self.external_pattern),
            module_ids: opt_ids_view(self.module_ids),
        }
    }
}

impl ModuleResolver {
    /// Whether the resolver is one that [`ModuleResolver::new`] made and its
    /// methods kept.
    pub closed spec fn wf(&self) -> bool {
        &&& self@.wf()
        &&& compiled_from(self.normalize_regex, NON_ALPHANUMERIC@)
        &&& match (self.external_pattern, self.external_regex) {
            (Some(pattern), Some(re)) => compiled_from(re, pattern@),
            (None, None) => true,
            _ => false,
        }
    }

    /// What every well-formed resolver's value satisfies.
    pub proof fn lemma_wf(&self)
        requires
            self.wf(),
        ensures
            self@.wf(),
    {
    }

    /// A resolver without registered modules. It is refused where a pattern
    /// does not compile, as [`refusal`] says.
    pub fn new(external_pattern: Option<String>, module_ids: Option<ModuleIds>) -> (r: Result<
        Self,
        ConfigError,
    >)
        ensures
            match refusal(opt_string_view(external_pattern)) {
                Some(e) => r matches Err(err) && err == e,
                None => {
                    &&& r matches Ok(resolver)
                    &&& resolver.wf()
                    &&& resolver@ == (ResolverView {
                        registered: Seq::empty(),
                        external_pattern: opt_string_view(external_pattern),
                        module_ids: opt_ids_view(module_ids),
                    })
                },
            },
    {
        let external_regex = match &external_pattern {
            Some(pattern) => match compile(pattern.as_str()) {
                Ok(re) => Some(re),
                Err(_) => {
                    return Err(ConfigError::ExternalPattern);
                },
            },
            None => None,
        };
        let normalize_regex = match compile(NON_ALPHANUMERIC) {
            Ok(re) => re,
            Err(_) => {
                return Err(ConfigError::NormalizePattern);
            },
        };
        let resolver = ModuleResolver {
            registered_idents: Vec::new(),
            external_pattern,
            external_regex,
            module_ids,
            normalize_regex,
        };
        assert(resolver@.registered =~= Seq::empty());
        Ok(resolver)
    }

    /// The registered module paths with their identifiers, in the order of
    /// their registration.
    pub fn registered_idents(&self) -> (r: &Vec<(String, Ident)>)
        ensures
            seq_view(*r) == self@.registered,
    {
        &self.registered_idents
    }

    /// Whether `src` matches the pattern of the external specifiers; without
    /// a pattern, nothing is external.
    pub fn is_external(&self, src: &String) -> (b: bool)
        requires
            self.wf(),
        ensures
            b == self@.is_external(src@),
    {
        match &self.external_regex {
            Some(re) => is_match(re, src.as_str()),
            None => false,
        }
    }

    /// The path that the remapping gives to `src`: none for an external
    /// specifier, none without a remapping, none where the remapping does not
    /// hold `src`.
    pub fn to_actual_path(&self, src: &String, is_external: bool) -> (r: Option<String>)
        ensures
            opt_string_view(r) == self@.actual_path(src@, is_external),
    {
        if is_external {
            return None;
        }
        match &self.module_ids {
            Some(ids) => {
                let mut i: usize = 0;
                while i < ids.len()
                    invariant
                        i <= ids.len(),
                        !is_external,
                        self@.module_ids == Some(seq_view(*ids)),
                        find(seq_view(*ids), src@) == find_from(seq_view(*ids), src@, i as int),
                    decreases ids.len() - i,
                {
                    assert(seq_view(*ids)[i as int] == ids[i as int]@);
                    if ids[i].0 == *src {
                        return Some(ids[i].1.clone());
                    }
                    i += 1;
                }
                None
            },
            None => None,
        }
    }

    /// The index under which `path` is registered, if it is.
    pub fn find_registered(&self, path: &String) -> (r: Option<usize>)
        ensures
            match r {
                Some(k) => find(self@.registered, path@) == Some(k as int),
                None => find(self@.registered, path@) is None,
            },
    {
        let mut i: usize = 0;
        while i < self.registered_idents.len()
            invariant
                i <= self.registered_idents.len(),
                find(self@.registered, path@) == find_from(self@.registered, path@, i as int),
            decreases self.registered_idents.len() - i,
        {
            assert(self@.registered[i as int] == self.registered_idents[i as int]@);
            if self.registered_idents[i].0 == *path {
                return Some(i);
            }
            i += 1;
        }
        None
    }

    /// The identifier under which the module at `path` is known. Where the
    /// path is not registered yet, it is registered now, under a private
    /// identifier spelled `sym`.
    pub fn register_ident(&mut self, path: String, sym: String) -> (r: Ident)
        requires
            old(self).wf(),
        ensures
            final(self).wf(),
            final(self)@ == old(self)@.with_registered(
                path@,
                IdentView { sym: sym@, mark: Mark::Module(old(self)@.registered.len() as usize) },
            ),
            r@ == old(self)@.ident_of(
                path@,
                IdentView { sym: sym@, mark: Mark::Module(old(self)@.registered.len() as usize) },
            ),
    {
        match self.find_registered(&path) {
            Some(k) => {
                proof {
                    lemma_find_some(self@.registered, path@, 0);
                }
                assert(self@.registered[k as int] == self.registered_idents[k as int]@);
                self.registered_idents[k].1.clone()
            },
            None => {
                let ident = Ident { sym, mark: Mark::Module(self.registered_idents.len()) };
                let r = ident.clone();
                proof {
                    lemma_find_none(old(self)@.registered, path@, 0);
                }
                self.registered_idents.push((path, ident));
                assert(self@.registered =~= old(self)@.registered.push((path@, r@)));
                r
            },
        }
    }

    /// The identifier of the module that `src` names. It is made and
    /// recorded at the first request for the module's path, and the same at
    /// every later request.
    pub fn get_ident_by_src(&mut self, src: &String, is_external: bool) -> (r: Ident)
        requires
            old(self).wf(),
        ensures
            final(self).wf(),
            final(self)@ == old(self)@.after_request(src@, is_external),
            r@ == old(self)@.ident_by_src(src@, is_external),
    {
        let path = match self.to_actual_path(src, is_external) {
            Some(path) => path,
            None => src.clone(),
        };
        let underscored = String::from_str("_").concat(src.as_str());
        proof {
            reveal_strlit("_");
            assert("_"@ =~= seq!['_']);
        }
        let sym = replace_all(&self.normalize_regex, underscored.as_str(), "_");
        self.register_ident(path, sym)
    }
}

/// Where a key is found from `start` on, it is found at an index from
/// `start` on, and the pair at that index has the key.
pub proof fn lemma_find_some<V>(pairs: Seq<(Seq<char>, V)>, key: Seq<char>, start: int)
    requires
        0 <= start,
        find_from(pairs, key, start) is Some,
    ensures
        start <= find_from(pairs, key, start)->0 < pairs.len(),
        pairs[find_from(pairs, key, start)->0].0 == key,
        forall|k: int|
            start <= k < find_from(pairs, key, start)->0 ==> (#[trigger] pairs[k]).0 != key,
    decreases pairs.len() - start,
{
    if start < pairs.len() && pairs[start].0 != key {
        lemma_find_some(pairs, key, start + 1);
    }
}

/// Where a key is not found from `start` on, no pair from `start` on has it.
pub proof fn lemma_find_none<V>(pairs: Seq<(Seq<char>, V)>, key: Seq<char>, start: int)
    requires
        0 <= start,
        find_from(pairs, key, start) is None,
    ensures
        forall|k: int| start <= k < pairs.len() ==> (#[trigger] pairs[k]).0 != key,
    decreases pairs.len() - start,
{
    if start < pairs.len() {
        lemma_find_none(pairs, key, start + 1);
    }
}

/// What a search from `start` on finds once a pair has been appended: what it
/// found before, where it found something; the appended pair, where that
/// pair has the key; nothing otherwise.
pub proof fn lemma_find_from_push<V>(
    pairs: Seq<(Seq<char>, V)>,
    key: Seq<char>,
    pair: (Seq<char>, V),
    start: int,
)
    requires
        0 <= start <= pairs.len(),
    ensures
        find_from(pairs.push(pair), key, start) == match find_from(pairs, key, start) {
            Some(k) => Some(k),
            None => if pair.0 == key {
                Some(pairs.len() as int)
            } else {
                None
            },
        },
    decreases pairs.len() - start,
{
    let longer = pairs.push(pair);
    if start < pairs.len() {
        assert(longer[start] == pairs[start]);
        if pairs[start].0 != key {
            lemma_find_from_push(pairs, key, pair, start + 1);
        }
    } else {
        assert(longer[start] == pair);
        assert(find_from(longer, key, start + 1) is None);
    }
}

impl ResolverView {
    /// The identifier of a specifier is stable: once it has been asked for,
    /// every later request for the same specifier returns the same
    /// identifier and leaves the resolver as it is.
    pub proof fn lemma_ident_is_stable(self, src: Seq<char>, is_external: bool)
        requires
            self.wf(),
        ensures
            self.after_request(src, is_external).ident_by_src(src, is_external)
                == self.ident_by_src(src, is_external),
            self.after_request(src, is_external).after_request(src, is_external)
                == self.after_request(src, is_external),
    {
        let path = self.path_of(src, is_external);
        let after = self.after_request(src, is_external);
        self.lemma_after_request(src, is_external);
        assert(after.path_of(src, is_external) == path);
        if find(self.registered, path) is None {
            lemma_find_from_push(self.registered, path, (path, self.fresh_ident(src)), 0);
        }
    }

    /// The identifiers are unique: two modules that are registered under
    /// different paths have different identifiers, however they are spelled.
    pub proof fn lemma_idents_are_unique(self, j: int, k: int)
        requires
            self.wf(),
            self.registered.len() <= usize::MAX,
            0 <= j < self.registered.len(),
            0 <= k < self.registered.len(),
            j != k,
        ensures
            self.registered[j].0 != self.registered[k].0,
            self.registered[j].1 != self.registered[k].1,
    {
        if j < k {
            assert(self.registered[j].0 != self.registered[k].0);
        } else {
            assert(self.registered[k].0 != self.registered[j].0);
        }
    }

    /// A request keeps the resolver well formed and its configuration as it
    /// is. After it the path of the specifier is registered, and every path
    /// that was registered before is registered at the same index, under the
    /// same identifier.
    pub proof fn lemma_after_request(self, src: Seq<char>, is_external: bool)
        requires
            self.wf(),
        ensures
            self.after_request(src, is_external).wf(),
            self.after_request(src, is_external).external_pattern == self.external_pattern,
            self.after_request(src, is_external).module_ids == self.module_ids,
            find(self.after_request(src, is_external).registered, self.path_of(src, is_external))
                is Some,
            self.registered.len() <= self.after_request(src, is_external).registered.len(),
            forall|k: int|
                0 <= k < self.registered.len() ==> self.after_request(
                    src,
                    is_external,
                ).registered[k] == #[trigger] self.registered[k],
            forall|path: Seq<char>|
                find(self.registered, path) is Some ==> #[trigger] find(
                    self.after_request(src, is_external).registered,
                    path,
                ) == find(self.registered, path),
    {
        let path = self.path_of(src, is_external);
        let after = self.after_request(src, is_external);
        match find(self.registered, path) {
            Some(k) => {},
            None => {
                let pair = (path, self.fresh_ident(src));
                lemma_find_none(self.registered, path, 0);
                lemma_find_from_push(self.registered, path, pair, 0);
                assert forall|i: int, j: int| 0 <= i < j < after.registered.len() implies (
                #[trigger] after.registered[i]).0 != (#[trigger] after.registered[j]).0 by {
                    if j < self.registered.len() {
                        assert(after.registered[i] == self.registered[i]);
                        assert(after.registered[j] == self.registered[j]);
                    } else {
                        assert(after.registered[i] == self.registered[i]);
                    }
                }
                assert forall|k: int| 0 <= k < after.registered.len() implies (
                #[trigger] after.registered[k]).1.mark == Mark::Module(k as usize) by {
                    if k < self.registered.len() {
                        assert(after.registered[k] == self.registered[k]);
                    }
                }
                assert forall|other: Seq<char>| find(self.registered, other) is Some implies (
                #[trigger] find(after.registered, other)) == find(self.registered, other) by {
                    lemma_find_from_push(self.registered, other, pair, 0);
                }
            },
        }
    }
}

} // verus!
