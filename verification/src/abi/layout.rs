use vstd::prelude::*;

verus! {

/// Where a field, or a run of padding, sits inside an aggregate.
#[derive(Debug, Clone, Copy, PartialEq, Eq, Structural)]
pub enum ABIFieldOffsetInfo {
    Normal { index: u32, offset: u32, original_index: usize },
    Padding { index: u32, offset: u32, size: u32 },
}

/// Size, alignment and field placement of a type.
#[derive(Debug)]
pub struct ABITypeLayout {
    pub size: u32,
    pub align: u32,
    pub field_offsets: Vec<ABIFieldOffsetInfo>,
    pub is_aggregate: bool,
}

/// The value of a layout, with a sequence in place of the vector.
pub struct ABITypeLayoutView {
    pub size: u32,
    pub align: u32,
    pub field_offsets: Seq<ABIFieldOffsetInfo>,
    pub is_aggregate: bool,
}

impl View for ABITypeLayout {
    type V = ABITypeLayoutView;

    open spec fn view(&self) -> ABITypeLayoutView {
        ABITypeLayoutView {
            size: self.size,
            align: self.align,
            field_offsets: self.field_offsets@,
            is_aggregate: self.is_aggregate,
        }
    }
}

/// The slot index recorded for the first entry that places the field
/// `original_index`, `None` when no entry does.
pub open spec fn spec_lookup_field_index(s: Seq<ABIFieldOffsetInfo>, original_index: usize) -> Option<u32>
    decreases s.len(),
{
    if s.len() == 0 {
        None
    } else {
        match s[0] {
            ABIFieldOffsetInfo::Normal { original_index: oi, index, .. } if oi == original_index => Some(index),
            _ => spec_lookup_field_index(s.drop_first(), original_index),
        }
    }
}

/// The offset recorded for the first entry that places the field
/// `original_index`, `None` when no entry does.
pub open spec fn spec_lookup_field_offset(s: Seq<ABIFieldOffsetInfo>, original_index: usize) -> Option<u32>
    decreases s.len(),
{
    if s.len() == 0 {
        None
    } else {
        match s[0] {
            ABIFieldOffsetInfo::Normal { original_index: oi, offset, .. } if oi == original_index => Some(offset),
            _ => spec_lookup_field_offset(s.drop_first(), original_index),
        }
    }
}

/// The slot index of the first field entry whose span `[offset, offset + size)`
/// holds `target`, where `size` is the size of the whole layout.
pub open spec fn spec_lookup_index_at_offset(s: Seq<ABIFieldOffsetInfo>, target: u32, size: u32) -> Option<usize>
    decreases s.len(),
{
    if s.len() == 0 {
        None
    } else {
        match s[0] {
            ABIFieldOffsetInfo::Normal { offset, index, .. } if offset <= target && target < offset + size =>
                Some(index as usize),
            _ => spec_lookup_index_at_offset(s.drop_first(), target, size),
        }
    }
}

/// No field entry that starts at or before `target` ends past `u32::MAX`
/// when given the layout's size.
pub open spec fn spec_offsets_span_fit(s: Seq<ABIFieldOffsetInfo>, target: u32, size: u32) -> bool {
    forall|k: int|
        0 <= k < s.len() ==> match #[trigger] s[k] {
            ABIFieldOffsetInfo::Normal { offset, .. } => offset <= target ==> offset + size <= u32::MAX,
            _ => true,
        }
}

impl ABITypeLayout {
    pub fn normal(size: u32, align: u32, field_offsets: Vec<ABIFieldOffsetInfo>) -> (r: Self)
        ensures
            r@ == (ABITypeLayoutView { size, align, field_offsets: field_offsets@, is_aggregate: false }),
    {
        Self { size, align, field_offsets, is_aggregate: false }
    }

    pub fn aggregate(size: u32, align: u32, field_offsets: Vec<ABIFieldOffsetInfo>) -> (r: Self)
        ensures
            r@ == (ABITypeLayoutView { size, align, field_offsets: field_offsets@, is_aggregate: true }),
    {
        Self { size, align, field_offsets, is_aggregate: true }
    }

    /// The slot index of the field that had position `original_index` in the
    /// declaration.
    pub fn lookup_field_index(&self, original_index: usize) -> (r: Option<u32>)
        ensures
            r == spec_lookup_field_index(self.field_offsets@, original_index),
    {
        let mut i: usize = 0;
        proof { assert(self.field_offsets@.skip(0) =~= self.field_offsets@); }
        while i < self.field_offsets.len()
            invariant
                i <= self.field_offsets.len(),
                spec_lookup_field_index(self.field_offsets@, original_index)
                    == spec_lookup_field_index(self.field_offsets@.skip(i as int), original_index),
            decreases self.field_offsets.len() - i,
        {
            proof {
                assert(self.field_offsets@.skip(i as int).drop_first() =~= self.field_offsets@.skip(i as int + 1));
            }
            match self.field_offsets[i].original_index() {
                Some(oi) => {
                    if oi == original_index {
                        return Some(self.field_offsets[i].index());
                    }
                },
                None => {},
            }
            i = i + 1;
        }
        None
    }

    /// The slot index of the first field whose span (measured with the size of
    /// the whole layout) covers `offset`.
    pub fn lookup_field_index_at_offset(&self, offset: u32) -> (r: Option<usize>)
        requires
            spec_offsets_span_fit(self.field_offsets@, offset, self.size),
        ensures
            r == spec_lookup_index_at_offset(self.field_offsets@, offset, self.size),
    {
        let mut best: Option<(usize, u32)> = None;
        let mut i: usize = 0;
        proof { assert(self.field_offsets@.skip(0) =~= self.field_offsets@); }
        while i < self.field_offsets.len()
            invariant
                i <= self.field_offsets.len(),
                spec_offsets_span_fit(self.field_offsets@, offset, self.size),
                best matches Some(b) ==> b.1 == self.size,
                spec_lookup_index_at_offset(self.field_offsets@, offset, self.size) == match best {
                    Some(b) => Some(b.0),
                    None => spec_lookup_index_at_offset(self.field_offsets@.skip(i as int), offset, self.size),
                },
            decreases self.field_offsets.len() - i,
        {
            proof {
                assert(self.field_offsets@.skip(i as int).drop_first() =~= self.field_offsets@.skip(i as int + 1));
                assert(self.field_offsets@.skip(i as int)[0] == self.field_offsets@[i as int]);
            }
            match self.field_offsets[i] {
                ABIFieldOffsetInfo::Normal { offset: field_offset, index, .. } => {
                    if offset >= field_offset && offset < field_offset + self.size {
                        match best {
                            Some((_, best_size)) if best_size >= self.size => {},
                            _ => {
                                best = Some((index as usize, self.size));
                            },
                        }
                    }
                },
                ABIFieldOffsetInfo::Padding { .. } => {},
            }
            i = i + 1;
        }
        match best {
            Some((idx, _)) => Some(idx),
            None => {
                proof { assert(self.field_offsets@.skip(i as int).len() == 0); }
                None
            },
        }
    }

    /// The offset of the field that had position `field_original_index` in the
    /// declaration.
    pub fn lookup_field_offset(&self, field_original_index: usize) -> (r: u32)
        requires
            spec_lookup_field_offset(self.field_offsets@, field_original_index) is Some,
        ensures
            Some(r) == spec_lookup_field_offset(self.field_offsets@, field_original_index),
    {
        let mut i: usize = 0;
        proof { assert(self.field_offsets@.skip(0) =~= self.field_offsets@); }
        while i < self.field_offsets.len()
            invariant
                i <= self.field_offsets.len(),
                spec_lookup_field_offset(self.field_offsets@, field_original_index)
                    == spec_lookup_field_offset(self.field_offsets@.skip(i as int), field_original_index),
            decreases self.field_offsets.len() - i,
        {
            proof {
                assert(self.field_offsets@.skip(i as int).drop_first() =~= self.field_offsets@.skip(i as int + 1));
            }
            match self.field_offsets[i] {
                ABIFieldOffsetInfo::Normal { offset, original_index, .. } => {
                    if original_index == field_original_index {
                        return offset;
                    }
                },
                ABIFieldOffsetInfo::Padding { .. } => {},
            }
            i = i + 1;
        }
        proof { assert(self.field_offsets@.skip(i as int).len() == 0); }
        0
    }

    /// A copy of this layout with the same value.
    pub fn clone_layout(&self) -> (r: ABITypeLayout)
        ensures
            r@ == self@,
    {
        let mut offsets: Vec<ABIFieldOffsetInfo> = Vec::new();
        let mut i: usize = 0;
        while i < self.field_offsets.len()
            invariant
                i <= self.field_offsets.len(),
                offsets@ == self.field_offsets@.take(i as int),
            decreases self.field_offsets.len() - i,
        {
            offsets.push(self.field_offsets[i]);
            proof { assert(offsets@ =~= self.field_offsets@.take(i as int + 1)); }
            i = i + 1;
        }
        proof { assert(self.field_offsets@.take(i as int) =~= self.field_offsets@); }
        ABITypeLayout {
            size: self.size,
            align: self.align,
            field_offsets: offsets,
            is_aggregate: self.is_aggregate,
        }
    }
}

impl ABIFieldOffsetInfo {
    pub fn normal(index: u32, offset: u32, original_index: usize) -> (r: Self)
        ensures
            r == (ABIFieldOffsetInfo::Normal { index, offset, original_index }),
    {
        ABIFieldOffsetInfo::Normal { index, offset, original_index }
    }

    pub fn padding(index: u32, offset: u32, size: u32) -> (r: Self)
        ensures
            r == (ABIFieldOffsetInfo::Padding { index, offset, size }),
    {
        ABIFieldOffsetInfo::Padding { index, offset, size }
    }

    pub open spec fn spec_offset(self) -> u32 {
        match self {
            ABIFieldOffsetInfo::Normal { offset, .. } => offset,
            ABIFieldOffsetInfo::Padding { offset, .. } => offset,
        }
    }

    pub open spec fn spec_index(self) -> u32 {
        match self {
            ABIFieldOffsetInfo::Normal { index, .. } => index,
            ABIFieldOffsetInfo::Padding { index, .. } => index,
        }
    }

    pub fn offset(&self) -> (r: u32)
        ensures
            r == self.spec_offset(),
    {
        match self {
            ABIFieldOffsetInfo::Normal { offset, .. } => *offset,
            ABIFieldOffsetInfo::Padding { offset, .. } => *offset,
        }
    }

    pub fn index(&self) -> (r: u32)
        ensures
            r == self.spec_index(),
    {
        match self {
            ABIFieldOffsetInfo::Normal { index, .. } => *index,
            ABIFieldOffsetInfo::Padding { index, .. } => *index,
        }
    }

    pub fn is_padding(&self) -> (r: bool)
        ensures
            r == (*self is Padding),
    {
        match self {
            ABIFieldOffsetInfo::Padding { .. } => true,
            ABIFieldOffsetInfo::Normal { .. } => false,
        }
    }

    /// The length of a padding run; `None` for a field.
    pub fn size(&self) -> (r: Option<u32>)
        ensures
            r == match *self {
                ABIFieldOffsetInfo::Normal { .. } => None,
                ABIFieldOffsetInfo::Padding { size, .. } => Some(size),
            },
    {
        match self {
            ABIFieldOffsetInfo::Normal { .. } => None,
            ABIFieldOffsetInfo::Padding { size, .. } => Some(*size),
        }
    }

    /// The declaration position of a field; `None` for padding.
    pub fn original_index(&self) -> (r: Option<usize>)
        ensures
            r == match *self {
                ABIFieldOffsetInfo::Normal { original_index, .. } => Some(original_index),
                ABIFieldOffsetInfo::Padding { .. } => None,
            },
    {
        match self {
            ABIFieldOffsetInfo::Normal { original_index, .. } => Some(*original_index),
            ABIFieldOffsetInfo::Padding { .. } => None,
        }
    }
}

} // verus!
