//! Symbol interning.
//!
//! Identifier text is mapped to small dense integer handles ([`Sym`]) so the
//! parser can compare names in constant time. The table never holds the same
//! text twice, so two handles are equal exactly when the texts they stand
//! for are equal; [`Interner::lemma_symbol_identity`] states that law.

use vstd::prelude::*;

verus! {

/// Handle for an interned name. Equality of handles from one interner is
/// equivalent to equality of the underlying texts.
#[derive(Debug, Clone, Copy, PartialEq, Eq, Structural)]
pub struct Sym {
    /// Index into the interner's table.
    pub id: usize,
}

/// Handle of the preloaded empty string.
pub const SYM_EMPTY_STRING: usize = 0;
/// Handle of the preloaded name `arguments`.
pub const SYM_ARGUMENTS: usize = 1;
/// Handle of the preloaded name `eval`.
pub const SYM_EVAL: usize = 2;
/// Handle of the preloaded name `yield`.
pub const SYM_YIELD: usize = 3;
/// Handle of the preloaded name `await`.
pub const SYM_AWAIT: usize = 4;
/// Handle of the preloaded name `async`.
pub const SYM_ASYNC: usize = 5;
/// Handle of the preloaded name `of`.
pub const SYM_OF: usize = 6;
/// Handle of the preloaded name `get`.
pub const SYM_GET: usize = 7;
/// Handle of the preloaded name `set`.
pub const SYM_SET: usize = 8;
/// Handle of the preloaded directive text `use strict`.
pub const SYM_USE_STRICT: usize = 9;
/// Handle of the preloaded name `function`.
pub const SYM_FUNCTION: usize = 10;
/// Handle of the preloaded name `const`.
pub const SYM_CONST: usize = 11;
/// Handle of the preloaded name `let`.
pub const SYM_LET: usize = 12;
/// Handle of the preloaded name `super`.
pub const SYM_SUPER: usize = 13;
/// Number of preloaded names.
pub const PRELOADED_COUNT: usize = 14;

impl Sym {
    /// Creates a handle from a raw index.
    pub fn new(id: usize) -> (r: Sym)
        ensures
            r.id == id,
    {
        Sym { id }
    }
}

/// Compares two byte strings for equality.
pub fn bytes_eq(a: &Vec<u8>, b: &Vec<u8>) -> (r: bool)
    ensures
        r == (a@ == b@),
{
    if a.len() != b.len() {
        assert(a@ != b@) by {
            assert(a@.len() != b@.len());
        }
        return false;
    }
    let n = a.len();
    let mut i: usize = 0;
    while i < n
        invariant
            n == a@.len(),
            n == b@.len(),
            i <= n,
            forall|k: int| 0 <= k < i ==> a@[k] == b@[k],
        decreases n - i,
    {
        if a[i] != b[i] {
            return false;
        }
        i = i + 1;
    }
    assert(a@ =~= b@);
    true
}

/// Append-only table mapping names to dense handles.
pub struct Interner {
    names: Vec<Vec<u8>>,
}

impl Interner {
    /// The sequence of interned texts, in handle order.
    pub closed spec fn view_names(self) -> Seq<Seq<u8>> {
        self.names@.map_values(|v: Vec<u8>| v@)
    }

    /// Well-formed: no text occurs twice, and the well-known names sit at
    /// their fixed handles.
    pub closed spec fn wf(self) -> bool {
        &&& forall|i: int, j: int|
            0 <= i < j < self.view_names().len() ==> self.view_names()[i] != self.view_names()[j]
        &&& self.view_names().len() >= PRELOADED_COUNT
    }

    /// Creates an interner preloaded with the well-known names, each at
    /// its fixed handle.
    pub fn new() -> (r: Interner)
        ensures
            r.wf(),
            r.view_names().len() == PRELOADED_COUNT,
            r.view_names()[SYM_EMPTY_STRING as int] == Seq::<u8>::empty(),
            r.view_names()[SYM_ARGUMENTS as int] == seq![
                97u8, 114u8, 103u8, 117u8, 109u8, 101u8, 110u8, 116u8, 115u8,
            ],
            r.view_names()[SYM_EVAL as int] == seq![101u8, 118u8, 97u8, 108u8],
            r.view_names()[SYM_YIELD as int] == seq![121u8, 105u8, 101u8, 108u8, 100u8],
            r.view_names()[SYM_AWAIT as int] == seq![97u8, 119u8, 97u8, 105u8, 116u8],
            r.view_names()[SYM_ASYNC as int] == seq![97u8, 115u8, 121u8, 110u8, 99u8],
            r.view_names()[SYM_OF as int] == seq![111u8, 102u8],
            r.view_names()[SYM_GET as int] == seq![103u8, 101u8, 116u8],
            r.view_names()[SYM_SET as int] == seq![115u8, 101u8, 116u8],
            r.view_names()[SYM_USE_STRICT as int] == seq![
                117u8, 115u8, 101u8, 32u8, 115u8, 116u8, 114u8, 105u8, 99u8, 116u8,
            ],
            r.view_names()[SYM_FUNCTION as int] == seq![
                102u8, 117u8, 110u8, 99u8, 116u8, 105u8, 111u8, 110u8,
            ],
            r.view_names()[SYM_CONST as int] == seq![99u8, 111u8, 110u8, 115u8, 116u8],
            r.view_names()[SYM_LET as int] == seq![108u8, 101u8, 116u8],
            r.view_names()[SYM_SUPER as int] == seq![115u8, 117u8, 112u8, 101u8, 114u8],
    {
        let mut names: Vec<Vec<u8>> = Vec::new();
        let empty: Vec<u8> = vec![];
        let arguments: Vec<u8> = vec![97, 114, 103, 117, 109, 101, 110, 116, 115];
        let eval_name: Vec<u8> = vec![101, 118, 97, 108];
        let yield_name: Vec<u8> = vec![121, 105, 101, 108, 100];
        let await_name: Vec<u8> = vec![97, 119, 97, 105, 116];
        let async_name: Vec<u8> = vec![97, 115, 121, 110, 99];
        let of_name: Vec<u8> = vec![111, 102];
        let get_name: Vec<u8> = vec![103, 101, 116];
        let set_name: Vec<u8> = vec![115, 101, 116];
        let use_strict: Vec<u8> = vec![117, 115, 101, 32, 115, 116, 114, 105, 99, 116];
        let function_name: Vec<u8> = vec![102, 117, 110, 99, 116, 105, 111, 110];
        let const_name: Vec<u8> = vec![99, 111, 110, 115, 116];
        let let_name: Vec<u8> = vec![108, 101, 116];
        let super_name: Vec<u8> = vec![115, 117, 112, 101, 114];
        names.push(empty);
        names.push(arguments);
        names.push(eval_name);
        names.push(yield_name);
        names.push(await_name);
        names.push(async_name);
        names.push(of_name);
        names.push(get_name);
        names.push(set_name);
        names.push(use_strict);
        names.push(function_name);
        names.push(const_name);
        names.push(let_name);
        names.push(super_name);
        let r = Interner { names };
        proof {
            assert(r.view_names()[0] =~= Seq::<u8>::empty());
            assert(r.view_names()[1] =~= seq![
                97u8, 114u8, 103u8, 117u8, 109u8, 101u8, 110u8, 116u8, 115u8,
            ]);
            assert(r.view_names()[2] =~= seq![101u8, 118u8, 97u8, 108u8]);
            assert(r.view_names()[3] =~= seq![121u8, 105u8, 101u8, 108u8, 100u8]);
            assert(r.view_names()[4] =~= seq![97u8, 119u8, 97u8, 105u8, 116u8]);
            assert(r.view_names()[5] =~= seq![97u8, 115u8, 121u8, 110u8, 99u8]);
            assert(r.view_names()[6] =~= seq![111u8, 102u8]);
            assert(r.view_names()[7] =~= seq![103u8, 101u8, 116u8]);
            assert(r.view_names()[8] =~= seq![115u8, 101u8, 116u8]);
            assert(r.view_names()[9] =~= seq![
                117u8, 115u8, 101u8, 32u8, 115u8, 116u8, 114u8, 105u8, 99u8, 116u8,
            ]);
            assert(r.view_names()[10] =~= seq![
                102u8, 117u8, 110u8, 99u8, 116u8, 105u8, 111u8, 110u8,
            ]);
            assert(r.view_names()[11] =~= seq![99u8, 111u8, 110u8, 115u8, 116u8]);
            assert(r.view_names()[12] =~= seq![108u8, 101u8, 116u8]);
            assert(r.view_names()[13] =~= seq![115u8, 117u8, 112u8, 101u8, 114u8]);
            assert forall|i: int, j: int|
                0 <= i < j < r.view_names().len() implies r.view_names()[i] != r.view_names()[j] by {
                let vn = r.view_names();
                if vn[i].len() == vn[j].len() {
                    assert(vn[i][0] != vn[j][0] || vn[i][1] != vn[j][1] || vn[i][2] != vn[j][2]);
                }
            }
        }
        r
    }

    /// Returns the handle for `name`, interning it first if it is new.
    pub fn get_or_intern(&mut self, name: &Vec<u8>) -> (r: Sym)
        requires
            old(self).wf(),
        ensures
            final(self).wf(),
            final(self).view_names().len() >= old(self).view_names().len(),
            forall|i: int|
                0 <= i < old(self).view_names().len() ==> final(self).view_names()[i] == old(
                    self,
                ).view_names()[i],
            r.id < final(self).view_names().len(),
            final(self).view_names()[r.id as int] == name@,
            final(self).view_names().len() <= old(self).view_names().len() + 1,
            (exists|i: int|
                0 <= i < old(self).view_names().len() && old(self).view_names()[i] == name@)
                ==> final(self).view_names() == old(self).view_names(),
    {
        let n = self.names.len();
        let mut i: usize = 0;
        while i < n
            invariant
                *self == *old(self),
                old(self).wf(),
                n == self.names@.len(),
                i <= n,
                forall|k: int| 0 <= k < i ==> self.view_names()[k] != name@,
            decreases n - i,
        {
            if bytes_eq(&self.names[i], name) {
                assert(self.view_names()[i as int] == name@);
                return Sym { id: i };
            }
            assert(self.view_names()[i as int] != name@);
            i = i + 1;
        }
        let mut copy: Vec<u8> = Vec::new();
        let mut k: usize = 0;
        let len = name.len();
        while k < len
            invariant
                len == name@.len(),
                k <= len,
                copy@ == name@.take(k as int),
            decreases len - k,
        {
            copy.push(name[k]);
            assert(copy@ =~= name@.take(k + 1 as int));
            k = k + 1;
        }
        assert(copy@ =~= name@);
        let ghost old_names = self.view_names();
        self.names.push(copy);
        proof {
            assert(self.view_names() =~= old_names.push(name@));
            assert forall|i2: int, j2: int|
                0 <= i2 < j2 < self.view_names().len() implies self.view_names()[i2]
                != self.view_names()[j2] by {
                if j2 == self.view_names().len() - 1 {
                    assert(self.view_names()[i2] == old_names[i2]);
                }
            }
        }
        Sym { id: n }
    }

    /// Returns the text of an interned handle, or `None` for a handle this
    /// interner never produced.
    pub fn resolve(&self, sym: Sym) -> (r: Option<&Vec<u8>>)
        ensures
            (sym.id < self.view_names().len()) <==> r is Some,
            r matches Some(v) ==> v@ == self.view_names()[sym.id as int],
    {
        let id = sym.id;
        if id < self.names.len() {
            Some(&self.names[id])
        } else {
            None
        }
    }

    /// Two handles of one interner are equal exactly when the texts they
    /// resolve to are equal.
    pub proof fn lemma_symbol_identity(self, a: Sym, b: Sym)
        requires
            self.wf(),
            a.id < self.view_names().len(),
            b.id < self.view_names().len(),
        ensures
            (a == b) <==> (self.view_names()[a.id as int] == self.view_names()[b.id as int]),
    {
        if a.id != b.id {
            if a.id < b.id {
                assert(self.view_names()[a.id as int] != self.view_names()[b.id as int]);
            } else {
                assert(self.view_names()[b.id as int] != self.view_names()[a.id as int]);
            }
        }
    }
}

} // verus!
