use crate::keys::TokenType;
use vstd::prelude::*;

verus! {

/// The record kept of one issued token.
#[derive(Debug)]
pub struct Token {
    pub token_id: String,
    pub user_id: String,
    pub kind: TokenType,
    pub signed_value: String,
    pub issued_at: i64,
    pub expires_at: i64,
    pub revoked: bool,
}

/// The record of a token as a mathematical value.
pub struct TokenView {
    pub token_id: Seq<char>,
    pub user_id: Seq<char>,
    pub kind: TokenType,
    pub signed_value: Seq<char>,
    pub issued_at: int,
    pub expires_at: int,
    pub revoked: bool,
}

impl View for Token {
    type V = TokenView;

    open spec fn view(&self) -> TokenView {
        TokenView {
            token_id: self.token_id@,
            user_id: self.user_id@,
            kind: self.kind,
            signed_value: self.signed_value@,
            issued_at: self.issued_at as int,
            expires_at: self.expires_at as int,
            revoked: self.revoked,
        }
    }
}

impl Token {
    /// A copy of the record.
    pub fn duplicate(&self) -> (r: Token)
        ensures
            r@ == self@,
    {
        Token {
            token_id: self.token_id.clone(),
            user_id: self.user_id.clone(),
            kind: self.kind,
            signed_value: self.signed_value.clone(),
            issued_at: self.issued_at,
            expires_at: self.expires_at,
            revoked: self.revoked,
        }
    }
}

/// Whether no two records share a token identifier.
pub open spec fn distinct_ids(rows: Seq<TokenView>) -> bool {
    forall|i: int, j: int|
        0 <= i < j < rows.len() ==> (#[trigger] rows[i]).token_id != (#[trigger] rows[j]).token_id
}

/// Whether a record is kept under the identifier.
pub open spec fn holds(rows: Seq<TokenView>, id: Seq<char>) -> bool {
    exists|i: int| 0 <= i < rows.len() && (#[trigger] rows[i]).token_id == id
}

/// The place of a record kept under the identifier.
pub open spec fn place_of(rows: Seq<TokenView>, id: Seq<char>) -> int {
    choose|i: int| 0 <= i < rows.len() && (#[trigger] rows[i]).token_id == id
}

/// The record kept under the identifier.
pub open spec fn row_of(rows: Seq<TokenView>, id: Seq<char>) -> TokenView {
    rows[place_of(rows, id)]
}

/// The records with the one under the identifier, if any, marked as revoked.
pub open spec fn with_revoked(rows: Seq<TokenView>, id: Seq<char>) -> Seq<TokenView> {
    if holds(rows, id) {
        rows.update(place_of(rows, id), TokenView { revoked: true, ..row_of(rows, id) })
    } else {
        rows
    }
}

/// The records of issued tokens, at most one under each identifier, in the
/// order in which they were added.
pub struct TokenStore {
    rows: Vec<Token>,
}

impl View for TokenStore {
    type V = Seq<TokenView>;

    closed spec fn view(&self) -> Seq<TokenView> {
        self.rows@.map_values(|t: Token| t@)
    }
}

impl TokenStore {
    /// Whether the store is well formed: no identifier occurs twice.
    pub open spec fn wf(&self) -> bool {
        distinct_ids(self@)
    }

    /// A store without records.
    pub fn new() -> (s: TokenStore)
        ensures
            s@ == Seq::<TokenView>::empty(),
            s.wf(),
    {
        let s = TokenStore { rows: Vec::new() };
        assert(s@ =~= Seq::<TokenView>::empty());
        s
    }

    /// The number of records.
    pub fn len(&self) -> (n: usize)
        ensures
            n == self@.len(),
    {
        self.rows.len()
    }

    /// A copy of the record at a place.
    pub fn get(&self, index: usize) -> (r: Option<Token>)
        ensures
            match r {
                Some(t) => index < self@.len() && t@ == self@[index as int],
                None => index >= self@.len(),
            },
    {
        if index < self.rows.len() {
            Some(self.rows[index].duplicate())
        } else {
            None
        }
    }

    /// The place of the record kept under an identifier.
    pub fn position(&self, id: &str) -> (r: Option<usize>)
        ensures
            match r {
                Some(k) => k < self@.len() && self@[k as int].token_id == id@,
                None => !holds(self@, id@),
            },
            self.wf() && r is Some ==> r->0 == place_of(self@, id@),
            r is Some <==> holds(self@, id@),
    {
        let wanted = id.to_owned();
        let mut i: usize = 0;
        while i < self.rows.len()
            invariant
                i <= self.rows.len(),
                wanted@ == id@,
                forall|j: int| 0 <= j < i ==> (#[trigger] self@[j]).token_id != id@,
            decreases self.rows.len() - i,
        {
            if self.rows[i].token_id == wanted {
                assert(self@[i as int].token_id == id@);
                return Some(i);
            }
            i = i + 1;
        }
        None
    }

    /// A copy of the record kept under an identifier.
    pub fn find(&self, id: &str) -> (r: Option<Token>)
        requires
            self.wf(),
        ensures
            match r {
                Some(t) => holds(self@, id@) && t@ == row_of(self@, id@),
                None => !holds(self@, id@),
            },
    {
        match self.position(id) {
            Some(k) => Some(self.rows[k].duplicate()),
            None => None,
        }
    }

    /// Adds a record, unless one is kept under its identifier already.
    pub fn insert(&mut self, row: Token) -> (added: bool)
        requires
            old(self).wf(),
        ensures
            final(self).wf(),
            added == !holds(old(self)@, row@.token_id),
            final(self)@ == (if added {
                old(self)@.push(row@)
            } else {
                old(self)@
            }),
    {
        if self.position(row.token_id.as_str()).is_some() {
            return false;
        }
        let ghost before = self@;
        self.rows.push(row);
        assert(self@ =~= before.push(row@));
        true
    }

    /// Marks the record under an identifier as revoked, and says whether
    /// there was one that had not been revoked before.
    pub fn revoke(&mut self, id: &str) -> (was_unrevoked: bool)
        requires
            old(self).wf(),
        ensures
            final(self).wf(),
            final(self)@ == with_revoked(old(self)@, id@),
            was_unrevoked == (holds(old(self)@, id@) && !row_of(old(self)@, id@).revoked),
    {
        match self.position(id) {
            None => false,
            Some(k) => {
                let ghost before = self@;
                let mut row = self.rows.remove(k);
                let was = !row.revoked;
                row.revoked = true;
                self.rows.insert(k, row);
                assert(self@ =~= with_revoked(before, id@));
                was
            },
        }
    }
}

} // verus!
