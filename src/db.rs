use vstd::prelude::*;
use crate::err::{CleoErr, ErrorKind};
use crate::models::{
    CleoUser, EmailToken, ExtraContentField, InstanceInformation, UserAPIToken, UserFile, UserKey,
    UserPost,
};

pub mod admin;
pub mod ecf;
pub mod email;
pub mod files;
pub mod general;
pub mod keys;
pub mod posts;
pub mod tokens;
pub mod users;

verus! {

/// The work factor that passwords are hashed with unless a store is told
/// otherwise: bcrypt's own default.
pub const DEFAULT_COST: u32 = 12;

/// The relational store: one table per kind of row, in insertion order.
///
/// Every repository operation of the library reads or changes this value.
/// A row is found by the first match in its table, an update changes every
/// row that matches, a delete removes every row that matches, as the SQL
/// statements `SELECT`, `UPDATE ... WHERE` and `DELETE ... WHERE` would.
pub struct Database {
    pub users: Vec<CleoUser>,
    pub tokens: Vec<UserAPIToken>,
    pub keys: Vec<UserKey>,
    pub posts: Vec<UserPost>,
    pub fields: Vec<ExtraContentField>,
    pub files: Vec<UserFile>,
    pub info: Vec<InstanceInformation>,
    pub email_tokens: Vec<EmailToken>,
    /// The bcrypt cost that new password hashes are made with.
    pub hash_cost: u32,
    /// Whether a signup key that was used once is refused afterwards.
    pub single_use_keys: bool,
}

impl Database {
    /// An empty store with the default hashing cost and single-use signup keys.
    pub fn new() -> (r: Database)
        ensures
            r.is_empty(),
            r.hash_cost == DEFAULT_COST,
            r.single_use_keys,
    {
        Database::with_settings(DEFAULT_COST, true)
    }

    /// An empty store with the given hashing cost and key policy. bcrypt
    /// accepts costs from 4 to 31.
    pub fn with_settings(hash_cost: u32, single_use_keys: bool) -> (r: Database)
        requires
            4 <= hash_cost <= 31,
        ensures
            r.is_empty(),
            r.hash_cost == hash_cost,
            r.single_use_keys == single_use_keys,
    {
        Database {
            users: Vec::new(),
            tokens: Vec::new(),
            keys: Vec::new(),
            posts: Vec::new(),
            fields: Vec::new(),
            files: Vec::new(),
            info: Vec::new(),
            email_tokens: Vec::new(),
            hash_cost,
            single_use_keys,
        }
    }

    /// Every table is empty.
    pub open spec fn is_empty(&self) -> bool {
        &&& self.users@.len() == 0
        &&& self.tokens@.len() == 0
        &&& self.keys@.len() == 0
        &&& self.posts@.len() == 0
        &&& self.fields@.len() == 0
        &&& self.files@.len() == 0
        &&& self.info@.len() == 0
        &&& self.email_tokens@.len() == 0
    }
}

/// The first element of `s` that satisfies `p`.
pub open spec fn find<T>(s: Seq<T>, p: spec_fn(T) -> bool) -> Option<T>
    decreases s.len(),
{
    if s.len() == 0 {
        None
    } else {
        let earlier = find(s.drop_last(), p);
        if earlier is Some {
            earlier
        } else if p(s.last()) {
            Some(s.last())
        } else {
            None
        }
    }
}

/// A match in a prefix is the first match of the whole sequence.
pub proof fn lemma_find_prefix<T>(s: Seq<T>, p: spec_fn(T) -> bool, k: int)
    requires
        0 <= k <= s.len(),
        find(s.take(k), p) is Some,
    ensures
        find(s, p) == find(s.take(k), p),
    decreases s.len() - k,
{
    if k == s.len() {
        assert(s.take(k) =~= s);
    } else {
        assert(s.drop_last().take(k) =~= s.take(k));
        lemma_find_prefix(s.drop_last(), p, k);
    }
}

/// Appending a row changes what is found only where nothing was found before.
pub proof fn lemma_find_push<T>(s: Seq<T>, p: spec_fn(T) -> bool, x: T)
    ensures
        find(s.push(x), p) == (if find(s, p) is Some {
            find(s, p)
        } else if p(x) {
            Some(x)
        } else {
            None
        }),
{
    assert(s.push(x).drop_last() =~= s);
}

/// Whether `p` holds of some element of `s`.
pub open spec fn any<T>(s: Seq<T>, p: spec_fn(T) -> bool) -> bool {
    exists|i: int| 0 <= i < s.len() && #[trigger] p(s[i])
}

/// Something is found exactly when some element matches.
pub proof fn lemma_find_any<T>(s: Seq<T>, p: spec_fn(T) -> bool)
    ensures
        find(s, p) is Some <==> any(s, p),
        find(s, p) matches Some(x) ==> p(x) && s.contains(x),
    decreases s.len(),
{
    if s.len() > 0 {
        lemma_find_any(s.drop_last(), p);
        if any(s, p) && find(s.drop_last(), p) is None && !p(s.last()) {
            let i = choose|i: int| 0 <= i < s.len() && #[trigger] p(s[i]);
            assert(s.drop_last()[i] == s[i]);
        }
        if let Some(x) = find(s.drop_last(), p) {
            let j = choose|j: int| 0 <= j < s.drop_last().len() && s.drop_last()[j] == x;
            assert(s[j] == x);
        }
        if find(s, p) is Some {
            if find(s.drop_last(), p) is Some {
                let i = choose|i: int| 0 <= i < s.drop_last().len() && #[trigger] p(s.drop_last()[i]);
                assert(p(s[i]));
            } else {
                assert(p(s[s.len() - 1]));
            }
        }
    }
}

/// `r` is the row found, or `NotFound` where there is none.
pub open spec fn found<T>(row: Option<T>, r: Result<T, CleoErr>) -> bool {
    match row {
        Some(x) => r matches Ok(v) && v == x,
        None => r matches Err(e) && e.kind == ErrorKind::NotFound,
    }
}

/// `r` is an error of kind `k`.
pub open spec fn fails_with<T>(r: Result<T, CleoErr>, k: ErrorKind) -> bool {
    r matches Err(e) && e.kind == k
}

/// The rows of `s`, each replaced by `f` of it where `p` holds.
pub open spec fn update_where<T>(s: Seq<T>, p: spec_fn(T) -> bool, f: spec_fn(T) -> T) -> Seq<T> {
    s.map_values(|x: T| if p(x) { f(x) } else { x })
}

/// Nothing that a filter keeps matches what the filter removed.
pub proof fn lemma_find_after_removal<T: Row>(s: Seq<T>, c: int, v: Seq<char>)
    ensures
        find(s.filter(matching::<T>(c, v, false)), has::<T>(c, v)) is None,
{
    let t = s.filter(matching::<T>(c, v, false));
    lemma_find_any(t, has::<T>(c, v));
    if exists|i: int| 0 <= i < t.len() && #[trigger] has::<T>(c, v)(t[i]) {
        let i = choose|i: int| 0 <= i < t.len() && #[trigger] has::<T>(c, v)(t[i]);
        s.lemma_filter_pred(matching::<T>(c, v, false), i);
    }
}

/// Updating the rows that match `p` by a change that keeps them matching
/// changes what is found by `p` in the same way.
pub proof fn lemma_find_after_update<T>(s: Seq<T>, p: spec_fn(T) -> bool, f: spec_fn(T) -> T)
    requires
        forall|x: T| #[trigger] p(x) ==> p(f(x)),
    ensures
        find(update_where(s, p, f), p) == (match find(s, p) {
            Some(x) => Some(f(x)),
            None => None,
        }),
    decreases s.len(),
{
    if s.len() > 0 {
        assert(update_where(s, p, f).drop_last() =~= update_where(s.drop_last(), p, f));
        lemma_find_after_update(s.drop_last(), p, f);
    }
}

/// A table row whose text columns can be compared with a value.
pub trait Row: Sized {
    /// The text in column `c` of this row.
    spec fn column(&self, c: int) -> Seq<char>;

    /// Whether column `c` of this row holds `v`.
    fn column_is(&self, c: usize, v: &String) -> (r: bool)
        ensures
            r == (self.column(c as int) == v@);

    /// A copy of this row.
    fn duplicate(&self) -> (r: Self)
        ensures
            r == *self;
}

/// A change of some columns of a row of type `T`.
pub trait Change<T>: Sized {
    /// The row after the change.
    spec fn changed(&self, row: T) -> T;

    /// Applies the change to a copy of `row`.
    fn apply(&self, row: &T) -> (r: T)
        ensures
            r == self.changed(*row);
}

/// The change `ch` as a function on rows.
pub open spec fn applied<T, C: Change<T>>(ch: C) -> spec_fn(T) -> T {
    |x: T| ch.changed(x)
}

/// The rows whose column `c` holds `v`.
pub open spec fn has<T: Row>(c: int, v: Seq<char>) -> spec_fn(T) -> bool {
    |x: T| x.column(c) == v
}

/// The rows for which "column `c` holds `v`" is `equal`.
pub open spec fn matching<T: Row>(c: int, v: Seq<char>, equal: bool) -> spec_fn(T) -> bool {
    |x: T| (x.column(c) == v) == equal
}

/// The index of the first row whose column `c` holds `v`.
pub fn position<T: Row>(rows: &Vec<T>, c: usize, v: &String) -> (r: Option<usize>)
    ensures
        match r {
            Some(i) => {
                &&& i < rows@.len()
                &&& rows@[i as int].column(c as int) == v@
                &&& find(rows@, has::<T>(c as int, v@)) == Some(rows@[i as int])
            },
            None => find(rows@, has::<T>(c as int, v@)) is None,
        },
{
    let mut i: usize = 0;
    while i < rows.len()
        invariant
            i <= rows@.len(),
            find(rows@.take(i as int), has::<T>(c as int, v@)) is None,
        decreases rows@.len() - i,
    {
        assert(rows@.take(i as int + 1).drop_last() =~= rows@.take(i as int));
        if rows[i].column_is(c, v) {
            proof {
                lemma_find_prefix(rows@, has::<T>(c as int, v@), i as int + 1);
            }
            return Some(i);
        }
        i += 1;
    }
    assert(rows@.take(i as int) =~= rows@);
    None
}

/// The rows for which "column `c` holds `v`" is `equal`, in their order.
pub fn select<T: Row>(rows: &Vec<T>, c: usize, v: &String, equal: bool) -> (r: Vec<T>)
    ensures
        r@ == rows@.filter(matching::<T>(c as int, v@, equal)),
{
    let mut out: Vec<T> = Vec::new();
    let mut i: usize = 0;
    while i < rows.len()
        invariant
            i <= rows@.len(),
            out@ == rows@.take(i as int).filter(matching::<T>(c as int, v@, equal)),
        decreases rows@.len() - i,
    {
        assert(rows@.take(i as int + 1) =~= rows@.take(i as int).push(rows@[i as int]));
        proof {
            rows@.take(i as int).lemma_filter_push(
                rows@[i as int],
                matching::<T>(c as int, v@, equal),
            );
        }
        if rows[i].column_is(c, v) == equal {
            out.push(rows[i].duplicate());
        }
        i += 1;
    }
    assert(rows@.take(i as int) =~= rows@);
    out
}

/// The table with `ch` applied to every row whose column `c` holds `v`.
pub fn update<T: Row, C: Change<T>>(rows: &Vec<T>, c: usize, v: &String, ch: &C) -> (r: Vec<T>)
    ensures
        r@ == update_where(rows@, has::<T>(c as int, v@), applied::<T, C>(*ch)),
{
    let mut out: Vec<T> = Vec::new();
    let mut i: usize = 0;
    while i < rows.len()
        invariant
            i <= rows@.len(),
            out@ =~= update_where(rows@.take(i as int), has::<T>(c as int, v@), applied::<T, C>(*ch)),
        decreases rows@.len() - i,
    {
        if rows[i].column_is(c, v) {
            out.push(ch.apply(&rows[i]));
        } else {
            out.push(rows[i].duplicate());
        }
        i += 1;
        assert(out@ =~= update_where(rows@.take(i as int), has::<T>(c as int, v@), applied::<T, C>(*ch)));
    }
    assert(rows@.take(i as int) =~= rows@);
    out
}

} // verus!
