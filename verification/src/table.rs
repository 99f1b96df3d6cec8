//! The assembled operation table, the per-mount context, and the table
//! surgery the delegation fallback performs.
//!
//! A table is the ordered list of the native struct's nullable
//! function-pointer fields, each either unset or carrying the trampoline
//! assigned for one operation under one access flavor.  The per-mount
//! context pairs a table snapshot with the user's filesystem instance; a
//! fallback never mutates it, it builds a transient copy whose table has
//! exactly one entry nulled.

use crate::synth::AccessFlavor;
use vstd::prelude::*;

verus! {

/// The trampoline assigned to one table entry: which operation it bridges
/// and under which access flavor it was generated.
#[derive(Debug)]
pub struct HandlerRef {
    pub op: String,
    pub flavor: AccessFlavor,
}

/// Mathematical mirror of [`HandlerRef`].
pub struct HandlerRefV {
    pub op: Seq<char>,
    pub flavor: AccessFlavor,
}

impl View for HandlerRef {
    type V = HandlerRefV;

    open spec fn view(&self) -> HandlerRefV {
        HandlerRefV { op: self.op@, flavor: self.flavor }
    }
}

impl Clone for HandlerRef {
    fn clone(&self) -> (r: Self)
        ensures
            r@ == self@,
    {
        HandlerRef { op: self.op.clone(), flavor: self.flavor }
    }
}

/// One nullable function-pointer field of the assembled table.
#[derive(Debug)]
pub struct TableEntry {
    pub name: String,
    pub handler: Option<HandlerRef>,
}

/// Mathematical mirror of [`TableEntry`].
#[verifier::ext_equal]
pub struct TableEntryV {
    pub name: Seq<char>,
    pub handler: Option<HandlerRefV>,
}

impl View for TableEntry {
    type V = TableEntryV;

    open spec fn view(&self) -> TableEntryV {
        TableEntryV {
            name: self.name@,
            handler: match self.handler {
                Some(h) => Some(h@),
                None => None,
            },
        }
    }
}

impl Clone for TableEntry {
    fn clone(&self) -> (r: Self)
        ensures
            r@ == self@,
    {
        let handler = match &self.handler {
            Some(h) => Some(h.clone()),
            None => None,
        };
        TableEntry { name: self.name.clone(), handler }
    }
}

/// The views of a table entry list, in order.
pub open spec fn entries_view(s: Seq<TableEntry>) -> Seq<TableEntryV> {
    s.map_values(|e: TableEntry| e@)
}

/// An assembled operation table: the native struct's function-pointer
/// fields in declaration order.  Fields of the native struct that are not
/// function pointers pass through the generator untouched and are not part
/// of the table model.
#[derive(Debug)]
pub struct OpTable {
    pub entries: Vec<TableEntry>,
}

/// Mathematical mirror of [`OpTable`].
#[verifier::ext_equal]
pub struct OpTableV {
    pub entries: Seq<TableEntryV>,
}

impl View for OpTable {
    type V = OpTableV;

    open spec fn view(&self) -> OpTableV {
        OpTableV { entries: entries_view(self.entries@) }
    }
}

impl Clone for OpTable {
    fn clone(&self) -> (r: Self)
        ensures
            r@ == self@,
    {
        let mut entries: Vec<TableEntry> = Vec::new();
        let mut i: usize = 0;
        while i < self.entries.len()
            invariant
                i <= self.entries.len(),
                entries@.len() == i as int,
                forall|j: int| 0 <= j < i as int ==> #[trigger] entries@[j]@ == self.entries@[j]@,
            decreases self.entries.len() - i,
        {
            entries.push(self.entries[i].clone());
            i = i + 1;
        }
        let r = OpTable { entries };
        proof {
            assert forall|j: int| 0 <= j < self.entries@.len() implies entries_view(
                r.entries@,
            )[j] == entries_view(self.entries@)[j] by {
                assert(r.entries@[j]@ == self.entries@[j]@);
            }
            assert(r@ =~= self@);
        }
        r
    }
}

/// The per-mount context: the user's filesystem instance (carried here as
/// an opaque handle the surrounding program maps back to the real
/// instance) and the snapshot of the assembled table the mount runs under.
/// The native runtime reads it on every call; it is released only after
/// the native run call returns.
#[derive(Debug)]
pub struct MountContext {
    pub fs_instance: u64,
    pub table: OpTable,
}

/// Mathematical mirror of [`MountContext`].
#[verifier::ext_equal]
pub struct MountContextV {
    pub fs_instance: u64,
    pub table: OpTableV,
}

impl View for MountContext {
    type V = MountContextV;

    open spec fn view(&self) -> MountContextV {
        MountContextV { fs_instance: self.fs_instance, table: self.table@ }
    }
}

/// The table with the entry of one operation unset and every other entry
/// unchanged.
pub open spec fn nulled_spec(entries: Seq<TableEntryV>, op: Seq<char>) -> Seq<TableEntryV> {
    entries.map_values(
        |e: TableEntryV|
            if e.name == op {
                TableEntryV { name: e.name, handler: None }
            } else {
                e
            },
    )
}

impl OpTable {
    /// Unsets the entry of operation `op` in place; every other entry is
    /// unchanged.
    pub fn unset(&mut self, op: &String)
        ensures
            final(self)@.entries == nulled_spec(old(self)@.entries, op@),
    {
        let ghost orig = entries_view(old(self).entries@);
        let n = self.entries.len();
        let mut i: usize = 0;
        while i < n
            invariant
                i <= n,
                self.entries@.len() == n as int,
                orig == entries_view(old(self).entries@),
                orig.len() == n as int,
                nulled_spec(orig, op@).len() == n as int,
                forall|j: int| 0 <= j < i as int ==> #[trigger] self.entries@[j]@ == nulled_spec(
                    orig,
                    op@,
                )[j],
                forall|j: int| i as int <= j < n as int ==> #[trigger] self.entries@[j]@ == orig[j],
            decreases n - i,
        {
            proof {
                assert(self.entries@[i as int]@ == orig[i as int]);
            }
            if self.entries[i].name.eq(op) {
                let name = self.entries[i].name.clone();
                self.entries.set(i, TableEntry { name, handler: None });
                proof {
                    assert(self.entries@[i as int]@ =~= nulled_spec(orig, op@)[i as int]);
                }
            } else {
                proof {
                    assert(nulled_spec(orig, op@)[i as int] == orig[i as int]);
                }
            }
            i = i + 1;
        }
        proof {
            assert(entries_view(self.entries@) =~= nulled_spec(orig, op@));
        }
    }
}

/// Clones a table, unsetting exactly the entry of operation `op`; the
/// source table is untouched.
pub fn fallback_table(t: &OpTable, op: &String) -> (r: OpTable)
    ensures
        r@.entries == nulled_spec(t@.entries, op@),
{
    let mut r = t.clone();
    r.unset(op);
    r
}

/// Builds the transient context a delegation fallback dispatches through:
/// the same filesystem instance, and a clone of the table with exactly the
/// declined operation unset.  The original context is untouched.
pub fn prepare_fallback(ctx: &MountContext, op: &String) -> (r: MountContext)
    ensures
        r.fs_instance == ctx.fs_instance,
        r@.table.entries == nulled_spec(ctx@.table.entries, op@),
{
    MountContext { fs_instance: ctx.fs_instance, table: fallback_table(&ctx.table, op) }
}

} // verus!
