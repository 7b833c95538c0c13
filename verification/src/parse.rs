//! Parsed package scripts: blocks of instructions and the routines that
//! name them.

use vstd::prelude::*;
use crate::instruction::{BlockId, InstrKind, InstrKindView, Instruction, InstructionView};
use crate::text::str_eq;

verus! {

/// An ordered sequence of instructions.
#[derive(Debug, PartialEq)]
pub struct Block {
    pub contents: Vec<Instruction>,
}

impl View for Block {
    type V = Seq<InstructionView>;

    open spec fn view(&self) -> Seq<InstructionView> {
        self.contents.deep_view()
    }
}

impl DeepView for Block {
    type V = Seq<InstructionView>;

    open spec fn deep_view(&self) -> Seq<InstructionView> {
        self@
    }
}

impl Block {
    /// A block without instructions.
    pub fn new() -> (r: Self)
        ensures
            r@ == Seq::<InstructionView>::empty(),
    {
        let r = Block { contents: Vec::new() };
        assert(r.contents.deep_view() =~= Seq::empty());
        r
    }

    /// Adds an instruction at the end of the block.
    pub fn push(&mut self, instr: Instruction)
        ensures
            final(self)@ == old(self)@.push(instr@),
    {
        let ghost before = self.contents;
        self.contents.push(instr);
        proof {
            crate::text::lemma_push_deep_view(before, self.contents, instr);
        }
    }
}

/// A parsed package script.
///
/// Blocks are addressed by their index. The block of an `if` instruction is
/// created while its parent is parsed, so it always comes after its parent.
#[derive(Debug, PartialEq)]
pub struct Parsed {
    pub blocks: Vec<Block>,
    /// The routines of the script, with the block that each one runs.
    pub routines: Vec<(String, BlockId)>,
}

/// The mathematical value of a [`Parsed`].
pub struct ParsedView {
    pub blocks: Seq<Seq<InstructionView>>,
    pub routines: Seq<(Seq<char>, BlockId)>,
}

impl View for Parsed {
    type V = ParsedView;

    open spec fn view(&self) -> ParsedView {
        ParsedView { blocks: self.blocks.deep_view(), routines: self.routines.deep_view() }
    }
}

/// Whether every `if` instruction of the block with index `parent` runs a
/// block that exists and comes after `parent`.
pub open spec fn block_nests(blocks: Seq<Seq<InstructionView>>, parent: int) -> bool {
    forall|k: int|
        0 <= k < blocks[parent].len() ==> (#[trigger] blocks[parent][k].kind matches InstrKindView::If(
            _,
            target,
        ) ==> parent < target < blocks.len())
}

/// Whether the blocks form a forest: every `if` instruction runs a block
/// that exists and comes after the block that holds the instruction.
pub open spec fn blocks_nest(blocks: Seq<Seq<InstructionView>>) -> bool {
    forall|b: int| 0 <= b < blocks.len() ==> #[trigger] block_nests(blocks, b)
}

/// The block of the first routine called `name`.
pub open spec fn routine_block(routines: Seq<(Seq<char>, BlockId)>, name: Seq<char>) -> Option<
    BlockId,
>
    decreases routines.len(),
{
    if routines.len() == 0 {
        None
    } else if routines[0].0 == name {
        Some(routines[0].1)
    } else {
        routine_block(routines.drop_first(), name)
    }
}

/// No routine is named by `name` exactly where no entry has the name.
pub proof fn lemma_routine_block_none(routines: Seq<(Seq<char>, BlockId)>, name: Seq<char>)
    ensures
        routine_block(routines, name) is None <==> forall|i: int|
            0 <= i < routines.len() ==> (#[trigger] routines[i]).0 != name,
    decreases routines.len(),
{
    if routines.len() > 0 {
        let rest = routines.drop_first();
        lemma_routine_block_none(rest, name);
        if routines[0].0 != name {
            if routine_block(rest, name) is None {
                assert forall|i: int| 0 <= i < routines.len() implies (#[trigger] routines[i]).0
                    != name by {
                    if i > 0 {
                        assert(routines[i] == rest[i - 1]);
                    }
                }
            } else {
                let i = choose|i: int| 0 <= i < rest.len() && (#[trigger] rest[i]).0 == name;
                assert(routines[i + 1] == rest[i]);
            }
        }
    }
}

impl ParsedView {
    /// Whether the blocks form a forest.
    pub open spec fn well_formed(self) -> bool {
        blocks_nest(self.blocks)
    }

    /// Whether the routines are in order: no two have one name, and each
    /// one runs a block that exists.
    pub open spec fn routines_valid(self) -> bool {
        &&& forall|i: int, j: int|
            0 <= i < j < self.routines.len() ==> (#[trigger] self.routines[i]).0 != (
            #[trigger] self.routines[j]).0
        &&& forall|i: int|
            0 <= i < self.routines.len() ==> (#[trigger] self.routines[i]).1 < self.blocks.len()
    }

    /// The instructions of the routine called `name`, where the script has
    /// that routine and its block.
    pub open spec fn routine(self, name: Seq<char>) -> Option<Seq<InstructionView>> {
        match routine_block(self.routines, name) {
            Some(id) => if id < self.blocks.len() {
                Some(self.blocks[id as int])
            } else {
                None
            },
            None => None,
        }
    }
}

impl Parsed {
    /// A script without blocks or routines.
    pub fn new() -> (r: Self)
        ensures
            r@.blocks == Seq::<Seq<InstructionView>>::empty(),
            r@.routines == Seq::<(Seq<char>, BlockId)>::empty(),
            r@.well_formed(),
    {
        let r = Parsed { blocks: Vec::new(), routines: Vec::new() };
        assert(r.blocks.deep_view() =~= Seq::empty());
        assert(r.routines.deep_view() =~= Seq::empty());
        r
    }

    /// The block that the routine called `name` runs.
    pub fn get_routine(&self, name: &str) -> (r: Option<BlockId>)
        ensures
            r == routine_block(self@.routines, name@),
    {
        let mut i: usize = 0;
        let ghost all = self.routines.deep_view();
        assert(all.skip(0) =~= all);
        while i < self.routines.len()
            invariant
                i <= self.routines.len(),
                all == self.routines.deep_view(),
                routine_block(all, name@) == routine_block(all.skip(i as int), name@),
            decreases self.routines.len() - i,
        {
            proof {
                assert(all.skip(i as int).drop_first() =~= all.skip(i + 1));
                assert(all.skip(i as int)[0] == (self.routines[i as int].0@, self.routines[i as int].1));
            }
            if str_eq(self.routines[i].0.as_str(), name) {
                return Some(self.routines[i].1);
            }
            i += 1;
        }
        None
    }

    /// The block with the given identifier.
    pub fn get_block(&self, id: BlockId) -> (r: Option<&Block>)
        ensures
            match r {
                Some(block) => id < self.blocks.len() && *block == self.blocks[id as int],
                None => id >= self.blocks.len(),
            },
    {
        if id < self.blocks.len() {
            Some(&self.blocks[id])
        } else {
            None
        }
    }

    /// Checks that the blocks form a forest.
    pub fn is_well_formed(&self) -> (r: bool)
        ensures
            r == self@.well_formed(),
    {
        let ghost blocks = self.blocks.deep_view();
        let mut b: usize = 0;
        while b < self.blocks.len()
            invariant
                b <= self.blocks.len(),
                blocks == self.blocks.deep_view(),
                forall|j: int| 0 <= j < b ==> #[trigger] block_nests(blocks, j),
            decreases self.blocks.len() - b,
        {
            let block = &self.blocks[b];
            assert(blocks[b as int] == block.contents.deep_view());
            let mut k: usize = 0;
            while k < block.contents.len()
                invariant
                    k <= block.contents.len(),
                    b < self.blocks.len(),
                    blocks == self.blocks.deep_view(),
                    blocks[b as int] == block.contents.deep_view(),
                    forall|j: int|
                        0 <= j < k ==> (#[trigger] blocks[b as int][j].kind matches InstrKindView::If(
                            _,
                            target,
                        ) ==> b < target < blocks.len()),
                decreases block.contents.len() - k,
            {
                assert(blocks[b as int][k as int] == block.contents[k as int]@);
                match &block.contents[k].kind {
                    InstrKind::If(condition, target) => {
                        if *target <= b || *target >= self.blocks.len() {
                            proof {
                                let instr = blocks[b as int][k as int];
                                assert(instr.kind == InstrKindView::If(condition@, *target));
                                assert(!block_nests(blocks, b as int));
                                assert(!blocks_nest(blocks));
                            }
                            return false;
                        }
                    },
                    _ => {},
                }
                k += 1;
            }
            assert(block_nests(blocks, b as int));
            b += 1;
        }
        true
    }
}

/// The name of the routine that holds the metadata of a package.
pub const METADATA_ROUTINE: &'static str = "meta";

/// The name of the routine that installs a package.
pub const INSTALL_ROUTINE: &'static str = "install";

} // verus!
