//! Recognizing the database backend from a connection string.

use vstd::prelude::*;
use vstd::string::StrSliceExecFns;

verus! {

/// The database backends a connection string can name.
#[derive(Clone, Copy, PartialEq, Eq, Structural, Debug)]
pub enum DbType {
    MySql,
    Postgres,
    Sqlite,
}

/// Whether `c` spells the lowercase letter `p`, accepting the uppercase
/// variant of an ASCII letter.
pub open spec fn char_matches_lower(c: char, p: char) -> bool {
    c == p || (('a' as int) <= p as int <= ('z' as int) && c as int + 32 == p as int)
}

/// Whether `s` starts with the lowercase ASCII word `p`, ignoring the case
/// of ASCII letters.
pub open spec fn prefix_ci(s: Seq<char>, p: Seq<char>) -> bool {
    p.len() <= s.len() && forall|i: int| 0 <= i < p.len() ==> char_matches_lower(s[i], p[i])
}

/// Whether `s` starts with the lowercase ASCII word `p`, ignoring the case
/// of ASCII letters in `s`.
fn has_prefix_ci(s: &str, p: &str) -> (r: bool)
    ensures
        r == prefix_ci(s@, p@),
{
    let n = p.unicode_len();
    if s.unicode_len() < n {
        return false;
    }
    let mut i: usize = 0;
    while i < n
        invariant
            i <= n,
            n == p@.len(),
            p@.len() <= s@.len(),
            forall|k: int| 0 <= k < i ==> char_matches_lower(s@[k], p@[k]),
        decreases n - i,
    {
        let sc = s.get_char(i);
        let pc = p.get_char(i);
        let scu = sc as u32;
        let pcu = pc as u32;
        let lower = pcu >= 97 && pcu <= 122;
        if !(sc == pc || (lower && scu + 32 == pcu)) {
            return false;
        }
        i = i + 1;
    }
    true
}

impl DbType {
    /// Recognize the backend that a connection string addresses, by its
    /// scheme prefix, ignoring the case of ASCII letters: `postgres`,
    /// `sqlite` or `mysql`. Anything else is not recognized.
    pub fn from_connection_string(input: &str) -> (r: Option<DbType>)
        ensures
            r == Some(DbType::Postgres) <==> prefix_ci(input@, "postgres"@),
            r == Some(DbType::Sqlite) <==> prefix_ci(input@, "sqlite"@),
            r == Some(DbType::MySql) <==> prefix_ci(input@, "mysql"@),
            r is None <==> (!prefix_ci(input@, "postgres"@) && !prefix_ci(input@, "sqlite"@)
                && !prefix_ci(input@, "mysql"@)),
    {
        let is_postgres = has_prefix_ci(input, "postgres");
        let is_sqlite = has_prefix_ci(input, "sqlite");
        let is_mysql = has_prefix_ci(input, "mysql");
        proof {
            reveal_strlit("postgres");
            reveal_strlit("sqlite");
            reveal_strlit("mysql");
            assert("postgres"@[0] == 'p' && "sqlite"@[0] == 's' && "mysql"@[0] == 'm');
            if is_postgres && is_sqlite {
                assert(char_matches_lower(input@[0], "postgres"@[0]));
                assert(char_matches_lower(input@[0], "sqlite"@[0]));
                assert(false);
            }
            if is_postgres && is_mysql {
                assert(char_matches_lower(input@[0], "postgres"@[0]));
                assert(char_matches_lower(input@[0], "mysql"@[0]));
                assert(false);
            }
            if is_sqlite && is_mysql {
                assert(char_matches_lower(input@[0], "sqlite"@[0]));
                assert(char_matches_lower(input@[0], "mysql"@[0]));
                assert(false);
            }
        }
        if is_postgres {
            Some(DbType::Postgres)
        } else if is_sqlite {
            Some(DbType::Sqlite)
        } else if is_mysql {
            Some(DbType::MySql)
        } else {
            None
        }
    }
}

} // verus!
