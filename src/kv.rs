use vstd::prelude::*;
use vstd::string::*;

use crate::error::CliError;

verus! {

/// A `key=value` pair taken from the command line.
#[derive(Debug, Clone)]
pub struct KvPair {
    pub k: String,
    pub v: String,
}

impl View for KvPair {
    type V = (Seq<char>, Seq<char>);

    open spec fn view(&self) -> (Seq<char>, Seq<char>) {
        (self.k@, self.v@)
    }
}

/// `i` is the position of the first `=` in `s`.
pub open spec fn is_first_eq(s: Seq<char>, i: int) -> bool {
    &&& 0 <= i < s.len()
    &&& s[i] == '='
    &&& forall|j: int| 0 <= j < i ==> s[j] != '='
}

/// The key and value of a `key=value` token: the text before and after its
/// first `=`, or `None` where it holds no `=`.
pub open spec fn kv_split(s: Seq<char>) -> Option<(Seq<char>, Seq<char>)> {
    if exists|i: int| is_first_eq(s, i) {
        let i = choose|i: int| is_first_eq(s, i);
        Some((s.subrange(0, i), s.subrange(i + 1, s.len() as int)))
    } else {
        None
    }
}

/// There is at most one first `=`.
pub proof fn lemma_first_eq_unique(s: Seq<char>, i: int, j: int)
    requires
        is_first_eq(s, i),
        is_first_eq(s, j),
    ensures
        i == j,
{
}

/// Where `s[k]` is `=`, some first `=` exists.
proof fn lemma_first_eq_before(s: Seq<char>, k: int)
    requires
        0 <= k < s.len(),
        s[k] == '=',
    ensures
        exists|i: int| is_first_eq(s, i),
    decreases k,
{
    if forall|j: int| 0 <= j < k ==> s[j] != '=' {
        assert(is_first_eq(s, k));
    } else {
        let j = choose|j: int| 0 <= j < k && s[j] == '=';
        lemma_first_eq_before(s, j);
    }
}

/// A token has a first `=` exactly when it holds an `=`.
pub proof fn lemma_first_eq_exists(s: Seq<char>)
    ensures
        (exists|i: int| is_first_eq(s, i)) <==> s.contains('='),
{
    if s.contains('=') {
        let k = choose|k: int| 0 <= k < s.len() && s[k] == '=';
        lemma_first_eq_before(s, k);
    }
}

impl KvPair {
    /// Splits `s` at its first `=`: the key is the text before it, the value the
    /// text after it, which may hold further `=` and may be empty, as may the
    /// key. A token without `=` is rejected.
    pub fn parse(s: &str) -> (r: Result<KvPair, CliError>)
        ensures
            match kv_split(s@) {
                Some(kv) => r matches Ok(p) && p@ == kv,
                None => r matches Err(CliError::InvalidKeyValue(t)) && t@ == s@,
            },
            r is Ok <==> s@.contains('='),
    {
        proof {
            lemma_first_eq_exists(s@);
        }
        let n = s.unicode_len();
        let mut i: usize = 0;
        while i < n
            invariant
                n == s@.len(),
                i <= n,
                forall|j: int| 0 <= j < i ==> s@[j] != '=',
            decreases n - i,
        {
            if s.get_char(i) == '=' {
                let k = s.substring_char(0, i);
                let v = s.substring_char(i + 1, n);
                proof {
                    assert(is_first_eq(s@, i as int));
                    let c = choose|c: int| is_first_eq(s@, c);
                    lemma_first_eq_unique(s@, i as int, c);
                }
                return Ok(KvPair { k: String::from_str(k), v: String::from_str(v) });
            }
            i = i + 1;
        }
        Err(CliError::InvalidKeyValue(String::from_str(s)))
    }
}

impl std::str::FromStr for KvPair {
    type Err = CliError;

    fn from_str(s: &str) -> (r: Result<KvPair, CliError>)
        ensures
            match kv_split(s@) {
                Some(kv) => r matches Ok(p) && p@ == kv,
                None => r matches Err(CliError::InvalidKeyValue(t)) && t@ == s@,
            },
            r is Ok <==> s@.contains('='),
    {
        KvPair::parse(s)
    }
}

/// Parses a `key=value` command-line token; see [`KvPair::parse`].
pub fn parse_kv_pair(s: &str) -> (r: Result<KvPair, CliError>)
    ensures
        match kv_split(s@) {
            Some(kv) => r matches Ok(p) && p@ == kv,
            None => r matches Err(CliError::InvalidKeyValue(t)) && t@ == s@,
        },
        r is Ok <==> s@.contains('='),
{
    KvPair::parse(s)
}

} // verus!
