use super::ParticipantId;
use vstd::prelude::*;

verus! {

#[derive(Clone, Debug, PartialEq, Eq, Structural)]
pub enum GridType {
    Prompt,
    /// Right side prompt
    Rprompt,
    Output,
    /// Combined prompt/command grid, used for same-line prompt
    PromptAndCommand,
}

/// A point in a grid.
#[derive(Clone, Debug, PartialEq, Eq, Structural)]
pub struct Point {
    pub row: usize,
    pub col: usize,
}

/// A point in a grid within a block.
#[derive(Clone, Debug, PartialEq, Eq)]
pub struct BlockPoint {
    pub block_id: BlockId,
    pub grid_type: GridType,
    pub point: Point,
}

/// An ID for a block that is unique only within a single shared session.
#[derive(Clone, Debug, Default, Hash, PartialEq, Eq)]
pub struct BlockId(String);

impl View for BlockId {
    type V = Seq<char>;

    closed spec fn view(&self) -> Seq<char> {
        self.0@
    }
}

impl BlockId {
    /// The id as its `Display` writes it.
    pub fn to_string(&self) -> (r: String)
        ensures
            r@ == self@,
    {
        self.0.clone()
    }
}

impl From<String> for BlockId {
    fn from(value: String) -> (r: Self)
        ensures
            r@ == value@,
    {
        Self(value)
    }
}

impl vstd::std_specs::convert::FromSpecImpl<String> for BlockId {
    open spec fn obeys_from_spec() -> bool {
        true
    }

    closed spec fn from_spec(v: String) -> Self {
        BlockId(v)
    }
}

/// What a shared session participant has selected.
#[allow(inconsistent_fields)]
#[derive(Clone, Debug, Default, PartialEq, Eq)]
pub enum Selection {
    /// Nothing is selected.
    #[default]
    NoSelection,
    Blocks { block_ids: Vec<BlockId> },
    /// Start is always before end.
    BlockText {
        start: BlockPoint,
        end: BlockPoint,
        /// If true, the user selected from the end point to the start point (useful for knowing where the cursor should be)
        is_reversed: bool,
    },
    /// Start is always before end
    AltScreenText {
        start: Point,
        end: Point,
        /// If true, the user selected from the end point to the start point (useful for knowing where the cursor should be)
        is_reversed: bool,
    },
}

#[derive(Clone, Copy, Debug, Default, Eq, Hash, Ord, PartialEq, PartialOrd, Structural)]
pub struct SelectionEventNo(usize);

impl View for SelectionEventNo {
    type V = usize;

    closed spec fn view(&self) -> usize {
        self.0
    }
}

impl SelectionEventNo {
    pub fn as_usize(&self) -> (r: usize)
        ensures
            r == self@,
    {
        self.0
    }
}

impl From<usize> for SelectionEventNo {
    fn from(value: usize) -> (r: Self)
        ensures
            r@ == value,
    {
        Self(value)
    }
}

impl vstd::std_specs::convert::FromSpecImpl<usize> for SelectionEventNo {
    open spec fn obeys_from_spec() -> bool {
        true
    }

    closed spec fn from_spec(v: usize) -> Self {
        SelectionEventNo(v)
    }
}

#[derive(Clone, Debug)]
pub struct SelectionUpdate {
    pub selection: Selection,
    pub event_no: SelectionEventNo,
}

#[derive(Clone, Debug)]
pub enum PresenceUpdate {
    Selection(Selection),
    // other stuff in the future, like scroll state
}

#[derive(Clone, Debug)]
pub struct ParticipantPresenceUpdate {
    pub participant_id: ParticipantId,
    pub update: PresenceUpdate,
}

/// One participant's current selection.
#[derive(Clone, Debug, Default)]
pub struct ParticipantSelection {
    pub id: ParticipantId,
    pub selection: Selection,
}

} // verus!
