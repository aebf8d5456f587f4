use vstd::prelude::*;

use crate::errors::APIError;
use crate::text::{push_char, str_eq};

verus! {

/// The named SQL statements of the server: the name of each `.sql` file,
/// without the extension, with the file's text. No name occurs twice.
#[derive(Debug)]
pub struct SQLManager {
    pub map: Vec<(String, String)>,
}

/// Whether no two entries share a name.
pub open spec fn names_distinct(e: Seq<(String, String)>) -> bool {
    forall|i: int, j: int| 0 <= i < j < e.len() ==> e[i].0@ != e[j].0@
}

/// The statements of a list of entries, by name.
pub open spec fn table_of(e: Seq<(String, String)>) -> Map<Seq<char>, Seq<char>>
    decreases e.len(),
{
    if e.len() == 0 {
        Map::empty()
    } else {
        table_of(e.drop_last()).insert(e.last().0@, e.last().1@)
    }
}

impl View for SQLManager {
    type V = Map<Seq<char>, Seq<char>>;

    open spec fn view(&self) -> Map<Seq<char>, Seq<char>> {
        table_of(self.map@)
    }
}

/// The four characters of the extension of a statement file.
pub open spec fn sql_ext() -> Seq<char> {
    seq!['.', 's', 'q', 'l']
}

/// `s` with every occurrence of `.sql` taken out, as `str::replace` finds
/// them: from the left, without overlap.
pub open spec fn without_sql_ext(s: Seq<char>) -> Seq<char>
    decreases s.len(),
{
    if s.len() == 0 {
        s
    } else if s.len() >= 4 && s.take(4) == sql_ext() {
        without_sql_ext(s.skip(4))
    } else {
        seq![s[0]] + without_sql_ext(s.skip(1))
    }
}

proof fn lemma_table_has_entry(e: Seq<(String, String)>, i: int)
    requires
        names_distinct(e),
        0 <= i < e.len(),
    ensures
        table_of(e).contains_key(e[i].0@),
        table_of(e)[e[i].0@] == e[i].1@,
    decreases e.len(),
{
    let last = e.len() - 1;
    if i < last {
        let d = e.drop_last();
        assert(d[i] == e[i]);
        lemma_table_has_entry(d, i);
        assert(e.last().0@ != e[i].0@);
    }
}

proof fn lemma_table_lacks(e: Seq<(String, String)>, k: Seq<char>)
    requires
        forall|i: int| 0 <= i < e.len() ==> e[i].0@ != k,
    ensures
        !table_of(e).contains_key(k),
    decreases e.len(),
{
    if e.len() > 0 {
        let d = e.drop_last();
        assert forall|i: int| 0 <= i < d.len() implies d[i].0@ != k by {
            assert(d[i] == e[i]);
        }
        lemma_table_lacks(d, k);
        assert(e.last() == e[e.len() - 1]);
    }
}

fn chars_of(s: &str) -> (r: Vec<char>)
    ensures
        r@ == s@,
{
    let mut r: Vec<char> = Vec::new();
    for c in iter: s.chars()
        invariant
            iter.seq() == s@,
            r@ == s@.take(iter.index()),
    {
        let ghost i = iter.index();
        r.push(c);
        assert(r@ =~= s@.take(i + 1));
    }
    assert(s@.take(s@.len() as int) =~= s@);
    r
}

/// The name of the statement held in the file `file_name`: the file name with
/// `.sql` taken out.
pub fn query_name(file_name: &str) -> (r: String)
    ensures
        r@ == without_sql_ext(file_name@),
{
    let cs = chars_of(file_name);
    let n = cs.len();
    let mut out = String::new();
    let mut i: usize = 0;
    assert(cs@.skip(0) =~= cs@);
    while i < n
        invariant
            n == cs@.len(),
            i <= n,
            out@ + without_sql_ext(cs@.skip(i as int)) == without_sql_ext(cs@),
        decreases n - i,
    {
        let rest = Ghost(cs@.skip(i as int));
        if n - i >= 4 && cs[i] == '.' && cs[i + 1] == 's' && cs[i + 2] == 'q' && cs[i + 3] == 'l' {
            assert(rest@.take(4) =~= sql_ext());
            assert(rest@.skip(4) =~= cs@.skip(i + 4));
            i = i + 4;
        } else {
            assert(!(rest@.len() >= 4 && rest@.take(4) == sql_ext())) by {
                if rest@.len() >= 4 && rest@.take(4) == sql_ext() {
                    assert(rest@.take(4)[0] == cs@[i as int]);
                    assert(rest@.take(4)[1] == cs@[i + 1]);
                    assert(rest@.take(4)[2] == cs@[i + 2]);
                    assert(rest@.take(4)[3] == cs@[i + 3]);
                }
            }
            assert(rest@.skip(1) =~= cs@.skip(i + 1));
            let ghost before = out@;
            push_char(&mut out, cs[i]);
            assert(out@ + without_sql_ext(cs@.skip(i + 1)) =~= before + without_sql_ext(rest@));
            i = i + 1;
        }
    }
    assert(cs@.skip(n as int) =~= Seq::<char>::empty());
    assert(out@ + Seq::<char>::empty() =~= out@);
    out
}

impl SQLManager {
    /// Whether no name occurs twice.
    pub open spec fn wf(&self) -> bool {
        names_distinct(self.map@)
    }

    /// A manager that holds no statement.
    pub fn new() -> (r: SQLManager)
        ensures
            r.wf(),
            r@ == Map::<Seq<char>, Seq<char>>::empty(),
    {
        SQLManager { map: Vec::new() }
    }

    /// Records the text of the statement file `file_name` under its name,
    /// unless a statement of that name is already held: the first one read stays.
    pub fn add_file(&mut self, file_name: &str, text: String)
        requires
            old(self).wf(),
        ensures
            final(self).wf(),
            final(self)@ == (if old(self)@.contains_key(without_sql_ext(file_name@)) {
                old(self)@
            } else {
                old(self)@.insert(without_sql_ext(file_name@), text@)
            }),
    {
        let key = query_name(file_name);
        let mut i: usize = 0;
        while i < self.map.len()
            invariant
                i <= self.map.len(),
                self.map@ == old(self).map@,
                names_distinct(self.map@),
                key@ == without_sql_ext(file_name@),
                forall|j: int| 0 <= j < i ==> self.map@[j].0@ != key@,
            decreases self.map.len() - i,
        {
            if str_eq(self.map[i].0.as_str(), key.as_str()) {
                proof {
                    lemma_table_has_entry(self.map@, i as int);
                }
                return;
            }
            i = i + 1;
        }
        proof {
            lemma_table_lacks(self.map@, key@);
        }
        let ghost before = self.map@;
        let ghost k = key@;
        self.map.push((key, text));
        assert(self.map@.drop_last() =~= before);
        assert(names_distinct(self.map@)) by {
            assert forall|a: int, b: int| 0 <= a < b < self.map@.len() implies self.map@[a].0@
                != self.map@[b].0@ by {
                if b == before.len() {
                    assert(self.map@[a] == before[a]);
                } else {
                    assert(self.map@[a] == before[a]);
                    assert(self.map@[b] == before[b]);
                }
            }
        }
    }

    /// The text of the statement named `function`; `IOError` when no such
    /// statement is held.
    pub fn get_sql(&self, function: &str) -> (r: Result<String, APIError>)
        requires
            self.wf(),
        ensures
            match r {
                Ok(text) => self@.contains_key(function@) && text@ == self@[function@],
                Err(e) => !self@.contains_key(function@) && e == APIError::IOError,
            },
    {
        let mut i: usize = 0;
        while i < self.map.len()
            invariant
                i <= self.map.len(),
                names_distinct(self.map@),
                forall|j: int| 0 <= j < i ==> self.map@[j].0@ != function@,
            decreases self.map.len() - i,
        {
            if str_eq(self.map[i].0.as_str(), function) {
                proof {
                    lemma_table_has_entry(self.map@, i as int);
                }
                return Ok(self.map[i].1.clone());
            }
            i = i + 1;
        }
        proof {
            lemma_table_lacks(self.map@, function@);
        }
        Err(APIError::IOError)
    }
}

/// A statement read from a file is found under the file's name without
/// `.sql`, with the text that was read, unless that name was already taken;
/// and a name taken before keeps its text.
pub proof fn lemma_added_statement_is_found(m: SQLManager, after: SQLManager, file_name: Seq<char>, text: Seq<char>)
    requires
        after@ == (if m@.contains_key(without_sql_ext(file_name)) {
            m@
        } else {
            m@.insert(without_sql_ext(file_name), text)
        }),
    ensures
        after@.contains_key(without_sql_ext(file_name)),
        !m@.contains_key(without_sql_ext(file_name)) ==> after@[without_sql_ext(file_name)] == text,
        forall|k: Seq<char>| #[trigger] m@.contains_key(k) ==> after@.contains_key(k) && after@[k] == m@[k],
{
}

} // verus!
