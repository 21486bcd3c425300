//! Agent environment variables and the `.env` file text they are written
//! to and read back from.
use vstd::prelude::*;
use crate::text::{
    chars_of, find_char_from, find_from, lemma_find_from, lemma_find_from_is, lines_of,
    push_char, push_str, split_once, split_once_range, string_of_range, strip_cr,
};

verus! {

/// A set of environment variables: each name at most once, kept in the
/// order in which names were first set.
pub struct EnvMap {
    entries: Vec<(String, String)>,
}

/// The map that a list of name/value pairs sets, later pairs overriding
/// earlier ones.
pub open spec fn map_of_pairs(ps: Seq<(Seq<char>, Seq<char>)>) -> Map<Seq<char>, Seq<char>>
    decreases ps.len(),
{
    if ps.len() == 0 {
        Map::empty()
    } else {
        map_of_pairs(ps.drop_last()).insert(ps.last().0, ps.last().1)
    }
}

/// Whether no name occurs twice in `ps`.
pub open spec fn names_distinct(ps: Seq<(Seq<char>, Seq<char>)>) -> bool {
    forall|i: int, j: int| 0 <= i < j < ps.len() ==> ps[i].0 != ps[j].0
}

/// The `.env` text of a list of pairs: one `name=value` line each, in
/// order.
pub open spec fn render_pairs(ps: Seq<(Seq<char>, Seq<char>)>) -> Seq<char>
    decreases ps.len(),
{
    if ps.len() == 0 {
        seq![]
    } else {
        render_pairs(ps.drop_last()) + env_line(ps.last().0, ps.last().1) + seq!['\n']
    }
}

/// One `name=value` line, without its line end.
pub open spec fn env_line(name: Seq<char>, value: Seq<char>) -> Seq<char> {
    name + seq!['='] + value
}

/// The variables that a list of lines sets: each line that holds a `=`
/// sets the text before the first `=` to the text after it; later lines
/// override earlier ones and other lines are skipped.
pub open spec fn env_of_lines(ls: Seq<Seq<char>>) -> Map<Seq<char>, Seq<char>>
    decreases ls.len(),
{
    if ls.len() == 0 {
        Map::empty()
    } else {
        match split_once(ls.last(), '=') {
            Some((k, v)) => env_of_lines(ls.drop_last()).insert(k, v),
            None => env_of_lines(ls.drop_last()),
        }
    }
}

/// The variables that a `.env` text sets.
pub open spec fn parse_env(s: Seq<char>) -> Map<Seq<char>, Seq<char>> {
    env_of_lines(lines_of(s))
}

proof fn lemma_map_of_pairs_dom(ps: Seq<(Seq<char>, Seq<char>)>, k: Seq<char>)
    ensures
        map_of_pairs(ps).contains_key(k) <==> exists|i: int| 0 <= i < ps.len() && ps[i].0 == k,
    decreases ps.len(),
{
    if ps.len() > 0 {
        lemma_map_of_pairs_dom(ps.drop_last(), k);
        if map_of_pairs(ps).contains_key(k) && ps.last().0 != k {
            let i = choose|i: int| 0 <= i < ps.drop_last().len() && ps.drop_last()[i].0 == k;
            assert(ps[i].0 == k);
        }
        if exists|i: int| 0 <= i < ps.len() && ps[i].0 == k {
            let i = choose|i: int| 0 <= i < ps.len() && ps[i].0 == k;
            if i < ps.len() - 1 {
                assert(ps.drop_last()[i].0 == k);
            }
        }
    }
}

proof fn lemma_map_of_pairs_value(ps: Seq<(Seq<char>, Seq<char>)>, i: int)
    requires
        names_distinct(ps),
        0 <= i < ps.len(),
    ensures
        map_of_pairs(ps).contains_key(ps[i].0),
        map_of_pairs(ps)[ps[i].0] == ps[i].1,
    decreases ps.len(),
{
    if i < ps.len() - 1 {
        lemma_map_of_pairs_value(ps.drop_last(), i);
        assert(ps.drop_last()[i] == ps[i]);
    }
}

impl View for EnvMap {
    type V = Map<Seq<char>, Seq<char>>;

    closed spec fn view(&self) -> Map<Seq<char>, Seq<char>> {
        map_of_pairs(self.pairs())
    }
}

impl EnvMap {
    /// The name/value pairs, in the order names were first set.
    pub closed spec fn pairs(&self) -> Seq<(Seq<char>, Seq<char>)> {
        self.entries@.map_values(|e: (String, String)| (e.0@, e.1@))
    }

    /// No name occurs twice.
    #[verifier::type_invariant]
    closed spec fn names_unique(&self) -> bool {
        names_distinct(self.pairs())
    }

    /// The view is the map that the pairs set.
    pub proof fn lemma_view_is_pairs(&self)
        ensures
            self@ == map_of_pairs(self.pairs()),
    {
    }

    /// An empty set of variables.
    pub fn new() -> (res: EnvMap)
        ensures
            res.pairs() == Seq::<(Seq<char>, Seq<char>)>::empty(),
            names_distinct(res.pairs()),
            res@ == Map::<Seq<char>, Seq<char>>::empty(),
    {
        let res = EnvMap { entries: Vec::new() };
        assert(res.pairs() =~= Seq::<(Seq<char>, Seq<char>)>::empty());
        res
    }

    /// The number of variables.
    pub fn len(&self) -> (res: usize)
        ensures
            res == self.pairs().len(),
            names_distinct(self.pairs()),
    {
        proof {
            use_type_invariant(self);
        }
        self.entries.len()
    }

    /// Sets `name` to `value`: a name already set keeps its place and
    /// takes the new value, a new name goes last.
    pub fn insert(&mut self, name: String, value: String)
        ensures
            final(self)@ == old(self)@.insert(name@, value@),
            names_distinct(final(self).pairs()),
            forall|i: int|
                0 <= i < old(self).pairs().len() && old(self).pairs()[i].0 == name@
                    ==> final(self).pairs() == old(self).pairs().update(i, (name@, value@)),
            !(exists|i: int|
                0 <= i < old(self).pairs().len() && old(self).pairs()[i].0 == name@)
                ==> final(self).pairs() == old(self).pairs().push((name@, value@)),
    {
        proof {
            use_type_invariant(&*self);
        }
        let ghost old_pairs = self.pairs();
        let mut entries: Vec<(String, String)> = Vec::new();
        std::mem::swap(&mut entries, &mut self.entries);
        assert(entries@.map_values(|e: (String, String)| (e.0@, e.1@)) == old_pairs);
        let mut i: usize = 0;
        while i < entries.len() && !(entries[i].0 == name)
            invariant
                i <= entries@.len(),
                entries@.map_values(|e: (String, String)| (e.0@, e.1@)) == old_pairs,
                forall|j: int| 0 <= j < i ==> old_pairs[j].0 != name@,
            decreases entries@.len() - i,
        {
            i = i + 1;
        }
        if i < entries.len() {
            let ghost k = i as int;
            assert(old_pairs[k].0 == name@);
            let name_copy = entries[i].0.clone();
            entries.set(i, (name_copy, value));
            let ghost new_pairs = entries@.map_values(|e: (String, String)| (e.0@, e.1@));
            assert(new_pairs =~= old_pairs.update(k, (name@, value@)));
            proof {
                assert(names_distinct(new_pairs)) by {
                    assert forall|a: int, b: int| 0 <= a < b < new_pairs.len() implies new_pairs[a].0
                        != new_pairs[b].0 by {
                        assert(new_pairs[a].0 == old_pairs[a].0);
                        assert(new_pairs[b].0 == old_pairs[b].0);
                    }
                }
                assert forall|key: Seq<char>|
                    map_of_pairs(new_pairs).contains_key(key) <==> map_of_pairs(
                        old_pairs,
                    ).insert(name@, value@).contains_key(key) by {
                    lemma_map_of_pairs_dom(new_pairs, key);
                    lemma_map_of_pairs_dom(old_pairs, key);
                    if exists|j: int| 0 <= j < old_pairs.len() && old_pairs[j].0 == key {
                        let j = choose|j: int| 0 <= j < old_pairs.len() && old_pairs[j].0 == key;
                        assert(new_pairs[j].0 == key);
                    }
                    if exists|j: int| 0 <= j < new_pairs.len() && new_pairs[j].0 == key {
                        let j = choose|j: int| 0 <= j < new_pairs.len() && new_pairs[j].0 == key;
                        assert(old_pairs[j].0 == key);
                    }
                }
                assert forall|key: Seq<char>| #[trigger]
                    map_of_pairs(new_pairs).contains_key(key) implies map_of_pairs(new_pairs)[key]
                    == map_of_pairs(old_pairs).insert(name@, value@)[key] by {
                    lemma_map_of_pairs_dom(new_pairs, key);
                    let j = choose|j: int| 0 <= j < new_pairs.len() && new_pairs[j].0 == key;
                    lemma_map_of_pairs_value(new_pairs, j);
                    if j != k {
                        lemma_map_of_pairs_value(old_pairs, j);
                    }
                }
                assert(map_of_pairs(new_pairs) =~= map_of_pairs(old_pairs).insert(name@, value@));
            }
            assert(forall|j: int|
                0 <= j < old_pairs.len() && old_pairs[j].0 == name@ ==> j == k);
            self.entries = entries;
        } else {
            let ghost new_pair = (name@, value@);
            entries.push((name, value));
            let ghost new_pairs = entries@.map_values(|e: (String, String)| (e.0@, e.1@));
            assert(new_pairs =~= old_pairs.push(new_pair));
            assert(new_pairs.drop_last() =~= old_pairs);
            self.entries = entries;
        }
        proof {
            use_type_invariant(&*self);
        }
    }

    /// The value of `name`, if it is set.
    pub fn get(&self, name: &str) -> (res: Option<&String>)
        ensures
            match res {
                Some(v) => self@.contains_key(name@) && self@[name@] == v@,
                None => !self@.contains_key(name@),
            },
    {
        proof {
            use_type_invariant(self);
        }
        let key = name.to_owned();
        let mut i: usize = 0;
        while i < self.entries.len()
            invariant
                i <= self.entries@.len(),
                self.pairs() == self.entries@.map_values(|e: (String, String)| (e.0@, e.1@)),
                forall|j: int| 0 <= j < i ==> self.pairs()[j].0 != name@,
                key@ == name@,
                names_distinct(self.pairs()),
            decreases self.entries@.len() - i,
        {
            if self.entries[i].0 == key {
                proof {
                    lemma_map_of_pairs_value(self.pairs(), i as int);
                }
                return Some(&self.entries[i].1);
            }
            i = i + 1;
        }
        proof {
            lemma_map_of_pairs_dom(self.pairs(), name@);
        }
        None
    }
}

/// Reading a name after setting it gives the value set, and every other
/// name keeps its value.
pub proof fn lemma_insert_then_read(
    before: &EnvMap,
    after: &EnvMap,
    name: Seq<char>,
    value: Seq<char>,
    other: Seq<char>,
)
    requires
        after@ == before@.insert(name, value),
        other != name,
    ensures
        after@.contains_key(name),
        after@[name] == value,
        after@.contains_key(other) == before@.contains_key(other),
        before@.contains_key(other) ==> after@[other] == before@[other],
{
}

/// Writes variables as `.env` text: one `name=value` line each, every
/// line ending in `\n`, in the order the names were first set.
pub fn render_env(env: &EnvMap) -> (res: String)
    ensures
        res@ == render_pairs(env.pairs()),
        names_distinct(env.pairs()),
        map_line_safe(env@) ==> parse_env(res@) == env@,
{
    proof {
        use_type_invariant(env);
        if map_line_safe(env@) {
            lemma_render_then_parse_map(env);
        }
    }
    let mut res = String::new();
    let mut i: usize = 0;
    while i < env.entries.len()
        invariant
            i <= env.entries@.len(),
            env.pairs() == env.entries@.map_values(|e: (String, String)| (e.0@, e.1@)),
            res@ == render_pairs(env.pairs().subrange(0, i as int)),
        decreases env.entries@.len() - i,
    {
        push_str(&mut res, env.entries[i].0.as_str());
        push_char(&mut res, '=');
        push_str(&mut res, env.entries[i].1.as_str());
        push_char(&mut res, '\n');
        assert(env.pairs().subrange(0, i + 1).drop_last() =~= env.pairs().subrange(0, i as int));
        i = i + 1;
    }
    assert(env.pairs().subrange(0, env.pairs().len() as int) =~= env.pairs());
    res
}

proof fn lemma_lines_of_split(s: Seq<char>, k: int)
    requires
        0 <= k < s.len(),
        s[k] == '\n',
        forall|j: int| 0 <= j < k ==> s[j] != '\n',
    ensures
        lines_of(s) == seq![strip_cr(s.subrange(0, k))] + lines_of(s.subrange(k + 1, s.len() as int)),
{
    lemma_find_from_is(s, '\n', 0, k as nat);
}

proof fn lemma_lines_of_unterminated(s: Seq<char>)
    requires
        s.len() > 0,
        forall|j: int| 0 <= j < s.len() ==> s[j] != '\n',
    ensures
        lines_of(s) == seq![s],
{
    lemma_find_from_is(s, '\n', 0, s.len());
}

/// Reads `.env` text: every line that holds a `=` sets the text before
/// its first `=` to the text after it, later lines overriding earlier
/// ones; lines without `=` are skipped.
pub fn parse_env_string(env: &str) -> (res: EnvMap)
    ensures
        res@ == parse_env(env@),
        names_distinct(res.pairs()),
{
    let v = chars_of(env);
    let n = v.len();
    let mut map = EnvMap::new();
    let mut i: usize = 0;
    let ghost mut done: Seq<Seq<char>> = seq![];
    assert(v@.subrange(0, n as int) =~= v@);
    assert(seq![] + lines_of(v@) =~= lines_of(v@));
    while i < n
        invariant
            i <= n,
            n == v@.len(),
            v@ == env@,
            lines_of(env@) == done + lines_of(v@.subrange(i as int, n as int)),
            map@ == env_of_lines(done),
        decreases n - i,
    {
        let ghost rest = v@.subrange(i as int, n as int);
        let k = find_char_from(&v, '\n', i);
        proof {
            lemma_find_from(v@, '\n', i as nat);
        }
        // the line is v[i..end], without a '\r' right before the '\n'
        let mut end = k;
        if k < n && end > i && v[end - 1] == '\r' {
            end = end - 1;
        }
        let ghost line = v@.subrange(i as int, end as int);
        proof {
            if k < n {
                lemma_lines_of_split(rest, k - i);
                assert(rest.subrange(0, k - i) =~= v@.subrange(i as int, k as int));
                assert(rest.subrange(k - i + 1, rest.len() as int) =~= v@.subrange(
                    k + 1,
                    n as int,
                ));
                assert(line =~= strip_cr(v@.subrange(i as int, k as int)));
            } else {
                lemma_lines_of_unterminated(rest);
                assert(line =~= rest);
                assert(v@.subrange(n as int, n as int) =~= Seq::<char>::empty());
            }
        }
        match split_once_range(&v, '=', i, end) {
            Some(eq) => {
                let name = string_of_range(&v, i, eq);
                let value = string_of_range(&v, eq + 1, end);
                map.insert(name, value);
            },
            None => {},
        }
        proof {
            let nd = done.push(line);
            assert(nd.drop_last() =~= done);
            done = nd;
        }
        i = if k < n {
            k + 1
        } else {
            n
        };
    }
    assert(v@.subrange(n as int, n as int) =~= Seq::<char>::empty());
    assert(done + Seq::<Seq<char>>::empty() =~= done);
    proof {
        use_type_invariant(&map);
    }
    map
}

/// Whether a `.env` text made of these pairs reads back as written: no
/// name holds `=` or a line end, and no value holds a line end or ends in
/// a carriage return.
pub open spec fn pairs_line_safe(ps: Seq<(Seq<char>, Seq<char>)>) -> bool {
    forall|i: int|
        #![trigger ps[i]]
        0 <= i < ps.len() ==> {
            &&& !ps[i].0.contains('=')
            &&& !ps[i].0.contains('\n')
            &&& !ps[i].1.contains('\n')
            &&& !(ps[i].1.len() > 0 && ps[i].1.last() == '\r')
        }
}

proof fn lemma_lines_of_concat(a: Seq<char>, b: Seq<char>)
    requires
        a.len() == 0 || a.last() == '\n',
    ensures
        lines_of(a + b) == lines_of(a) + lines_of(b),
    decreases a.len(),
{
    if a.len() == 0 {
        assert(a + b =~= b);
        assert(lines_of(a) + lines_of(b) =~= lines_of(b));
    } else {
        lemma_find_from(a, '\n', 0);
        let k = find_from(a, '\n', 0) as int;
        assert(k < a.len());
        let ab = a + b;
        assert forall|j: int| 0 <= j < k implies ab[j] != '\n' by {
            assert(ab[j] == a[j]);
        }
        lemma_lines_of_split(ab, k);
        lemma_lines_of_split(a, k);
        let a2 = a.subrange(k + 1, a.len() as int);
        assert(ab.subrange(0, k) =~= a.subrange(0, k));
        assert(ab.subrange(k + 1, ab.len() as int) =~= a2 + b);
        lemma_lines_of_concat(a2, b);
        assert(lines_of(ab) =~= lines_of(a) + lines_of(b));
    }
}

#[verifier::spinoff_prover]
#[verifier::rlimit(40)]
proof fn lemma_render_lines(ps: Seq<(Seq<char>, Seq<char>)>)
    requires
        pairs_line_safe(ps),
    ensures
        lines_of(render_pairs(ps)) == ps.map_values(
            |p: (Seq<char>, Seq<char>)| env_line(p.0, p.1),
        ),
    decreases ps.len(),
{
    if ps.len() > 0 {
        let init = ps.drop_last();
        assert forall|i: int| 0 <= i < init.len() implies {
            &&& !init[i].0.contains('=')
            &&& !init[i].0.contains('\n')
            &&& !init[i].1.contains('\n')
            &&& !(init[i].1.len() > 0 && init[i].1.last() == '\r')
        } by {
            assert(init[i] == ps[i]);
        }
        lemma_render_lines(init);
        let (k, v) = ps.last();
        assert(ps[ps.len() - 1] == ps.last());
        let line = env_line(k, v);
        let tail = line + seq!['\n'];
        let prefix = render_pairs(init);
        if prefix.len() > 0 {
            assert(init.len() > 0);
            assert(prefix.last() == '\n');
        }
        assert(render_pairs(ps) == prefix + tail);
        lemma_lines_of_concat(prefix, tail);
        assert forall|j: int| 0 <= j < line.len() implies line[j] != '\n' by {
            if j < k.len() {
                assert(line[j] == k[j]);
                assert(!k.contains('\n'));
            } else if j > k.len() {
                assert(line[j] == v[j - k.len() - 1]);
                assert(!v.contains('\n'));
            }
        }
        lemma_lines_of_split(tail, line.len() as int);
        assert(tail.subrange(0, line.len() as int) =~= line);
        assert(tail.subrange(line.len() as int + 1, tail.len() as int) =~= Seq::<char>::empty());
        if v.len() > 0 {
            assert(line.last() == v.last());
        }
        assert(strip_cr(line) == line);
        assert(lines_of(tail) =~= seq![line]);
        assert(lines_of(render_pairs(ps)) =~= ps.map_values(
            |p: (Seq<char>, Seq<char>)| env_line(p.0, p.1),
        ));
    } else {
        assert(lines_of(render_pairs(ps)) =~= ps.map_values(
            |p: (Seq<char>, Seq<char>)| env_line(p.0, p.1),
        ));
    }
}

proof fn lemma_split_env_line(k: Seq<char>, v: Seq<char>)
    requires
        !k.contains('='),
    ensures
        split_once(env_line(k, v), '=') == Some((k, v)),
{
    let line = env_line(k, v);
    assert forall|j: int| 0 <= j < k.len() implies line[j] != '=' by {
        assert(line[j] == k[j]);
    }
    lemma_find_from_is(line, '=', 0, k.len());
    assert(line.subrange(0, k.len() as int) =~= k);
    assert(line.subrange(k.len() as int + 1, line.len() as int) =~= v);
}

proof fn lemma_env_of_env_lines(ps: Seq<(Seq<char>, Seq<char>)>)
    requires
        pairs_line_safe(ps),
    ensures
        env_of_lines(ps.map_values(|p: (Seq<char>, Seq<char>)| env_line(p.0, p.1)))
            == map_of_pairs(ps),
    decreases ps.len(),
{
    if ps.len() > 0 {
        let init = ps.drop_last();
        assert forall|i: int| 0 <= i < init.len() implies {
            &&& !init[i].0.contains('=')
            &&& !init[i].0.contains('\n')
            &&& !init[i].1.contains('\n')
            &&& !(init[i].1.len() > 0 && init[i].1.last() == '\r')
        } by {
            assert(init[i] == ps[i]);
        }
        lemma_env_of_env_lines(init);
        let ls = ps.map_values(|p: (Seq<char>, Seq<char>)| env_line(p.0, p.1));
        assert(ls.drop_last() =~= init.map_values(
            |p: (Seq<char>, Seq<char>)| env_line(p.0, p.1),
        ));
        assert(ps[ps.len() - 1] == ps.last());
        lemma_split_env_line(ps.last().0, ps.last().1);
    }
}

/// Writing variables as `.env` text and reading the text back gives the
/// same variables, whenever the text can hold them line by line (no name
/// holds `=` or a line end, and no value holds a line end or ends in a
/// carriage return).
pub proof fn lemma_render_then_parse(env: &EnvMap)
    requires
        pairs_line_safe(env.pairs()),
    ensures
        parse_env(render_pairs(env.pairs())) == env@,
{
    env.lemma_view_is_pairs();
    lemma_render_lines(env.pairs());
    lemma_env_of_env_lines(env.pairs());
}

/// Whether every variable of a map can be written on one `.env` line and
/// read back: no name holds `=` or a line end, and no value holds a line
/// end or ends in a carriage return.
pub open spec fn map_line_safe(m: Map<Seq<char>, Seq<char>>) -> bool {
    forall|k: Seq<char>|
        #![trigger m[k]]
        m.contains_key(k) ==> {
            &&& !k.contains('=')
            &&& !k.contains('\n')
            &&& !m[k].contains('\n')
            &&& !(m[k].len() > 0 && m[k].last() == '\r')
        }
}

/// Writing variables as `.env` text and reading the text back gives the
/// same variables, whenever every variable can be written on one line
/// (see `map_line_safe`). Every `EnvMap` has distinct names; `new`,
/// `insert`, `len`, `render_env` and `parse_env_string` state it of the
/// map they touch, and `render_env` states this law of its own result.
pub proof fn lemma_render_then_parse_map(env: &EnvMap)
    requires
        names_distinct(env.pairs()),
        map_line_safe(env@),
    ensures
        parse_env(render_pairs(env.pairs())) == env@,
{
    let ps = env.pairs();
    assert forall|i: int| 0 <= i < ps.len() implies {
        &&& !(#[trigger] ps[i]).0.contains('=')
        &&& !ps[i].0.contains('\n')
        &&& !ps[i].1.contains('\n')
        &&& !(ps[i].1.len() > 0 && ps[i].1.last() == '\r')
    } by {
        lemma_map_of_pairs_value(ps, i);
        assert(env@[ps[i].0] == ps[i].1);
    }
    lemma_render_then_parse(env);
}

} // verus!
