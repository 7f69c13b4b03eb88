//! Blocks and their identity.

use vstd::prelude::*;
use beacon::BeaconBlock;
use crate::engine;
use crate::identifier::{Identifier, is_sentinel, is_zero};

verus! {

/// A consensus payload, addressed by its content. The identifier is derived whenever it
/// is asked for and stored nowhere, so it cannot part from the content.
#[derive(Debug, PartialEq, Eq)]
pub struct Block(pub BeaconBlock);

impl Clone for Block {
    fn clone(&self) -> (copy: Block)
        ensures
            copy == *self,
    {
        Block(self.0.clone())
    }
}

impl Block {
    /// The identifier of this block as a sequence of bytes.
    pub open spec fn spec_id(&self) -> Seq<u8> {
        engine::block_root(self.0)
    }

    /// The raw parent reference of the payload.
    pub open spec fn parent_reference(&self) -> Seq<u8> {
        engine::parent_reference(self.0)
    }

    /// The parent of this block: none where the payload carries the sentinel, else the
    /// parent reference as it stands.
    pub open spec fn spec_parent_id(&self) -> Option<Seq<u8>> {
        if is_sentinel(self.parent_reference()) {
            None
        } else {
            Some(self.parent_reference())
        }
    }

    /// The identifier of this block: the root of its payload.
    pub fn id(&self) -> (id: Identifier)
        ensures
            id@ == self.spec_id(),
    {
        engine::hash_block(&self.0)
    }

    /// The identifier of the parent, or `None` for a block that has none.
    pub fn parent_id(&self) -> (parent: Option<Identifier>)
        ensures
            parent is None <==> is_sentinel(self.parent_reference()),
            parent matches Some(id) ==> id@ == self.parent_reference(),
            parent is None <==> self.spec_parent_id() is None,
            parent matches Some(id) ==> self.spec_parent_id() == Some(id@),
    {
        let reference = engine::read_parent_reference(&self.0);
        if is_zero(&reference) {
            None
        } else {
            Some(reference)
        }
    }
}

/// Identity is a matter of content: any two identifiers derived from one payload are the
/// same identifier, and so are any two parents read from it.
pub proof fn law_identity_is_stable(a: Block, b: Block, first: Identifier, second: Identifier)
    requires
        a.0 == b.0,
        first@ == a.spec_id(),
        second@ == b.spec_id(),
    ensures
        first == second,
        a.spec_parent_id() == b.spec_parent_id(),
{
    assert(first@ =~= second@);
    assert(first =~= second);
}

/// A block is without a parent exactly if its parent reference is the sentinel, and
/// names as its parent what the reference holds otherwise.
pub proof fn law_parent_follows_reference(block: Block)
    ensures
        block.spec_parent_id() is None <==> is_sentinel(block.parent_reference()),
        !is_sentinel(block.parent_reference()) ==> block.spec_parent_id() == Some(
            block.parent_reference(),
        ),
{
}

/// A block whose parent reference holds the identifier of another block names that
/// block as its parent, unless that identifier is the sentinel itself.
pub proof fn law_child_names_parent(child: Block, parent: Block)
    requires
        child.parent_reference() == parent.spec_id(),
        !is_sentinel(parent.spec_id()),
    ensures
        child.spec_parent_id() == Some(parent.spec_id()),
{
}

} // verus!
