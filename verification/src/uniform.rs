//! Common definitions for binding uniforms to shaders.

use core::ops::Range;

use vstd::prelude::*;

use crate::math::{FVec4, IVec, Matrix4};

verus! {

/// The index of a uniform within a shader program.
#[derive(Copy, Clone, Debug, PartialEq, Eq, Structural, PartialOrd, Ord)]
pub struct Index(u8);

impl Index {
    /// The register number.
    pub closed spec fn spec_value(self) -> u8 {
        self.0
    }

    /// The index of register `value`.
    pub closed spec fn spec_new(value: u8) -> Self {
        Index(value)
    }

    /// The register number and the index built from it determine each other.
    pub proof fn lemma_value(value: u8, index: Index)
        ensures
            Self::spec_new(value).spec_value() == value,
            Self::spec_new(index.spec_value()) == index,
    {
    }
}

impl From<u8> for Index {
    fn from(value: u8) -> (r: Self)
        ensures
            r == Index::spec_new(value),
    {
        Index(value)
    }
}

impl vstd::std_specs::convert::FromSpecImpl<u8> for Index {
    open spec fn obeys_from_spec() -> bool {
        true
    }

    open spec fn from_spec(v: u8) -> Index {
        Index::spec_new(v)
    }
}

impl From<Index> for i32 {
    fn from(value: Index) -> (r: i32)
        ensures
            r == value.spec_value(),
    {
        value.0 as i32
    }
}

impl vstd::std_specs::convert::FromSpecImpl<Index> for i32 {
    open spec fn obeys_from_spec() -> bool {
        true
    }

    open spec fn from_spec(v: Index) -> i32 {
        v.spec_value() as i32
    }
}

/// A uniform which may be bound as input to a shader program
#[derive(Debug, Clone, Copy)]
pub enum Uniform {
    /// Single float uniform (`.fvec name`)
    Float(FVec4),
    /// Two element float uniform (`.fvec name[2]`)
    Float2([FVec4; 2]),
    /// Three element float uniform (`.fvec name [3]`)
    Float3([FVec4; 3]),
    /// Matrix/4 element float uniform (`.fvec name[4]`)
    Float4(Matrix4),
    /// Bool uniform (`.bool name`)
    Bool(bool),
    /// Integer uniform (`.ivec name`)
    Int(IVec),
}

/// One register write that binding a uniform performs.
#[derive(Debug, Clone, Copy)]
pub enum UniformWrite {
    /// Set float register `index` to `value` (`C3D_FVUnifSet`).
    Float { index: i32, value: FVec4 },
    /// Set boolean register `index` to `value` (`C3D_BoolUnifSet`).
    Bool { index: i32, value: bool },
    /// Set integer register `index` to the components of `value` (`C3D_IVUnifSet`).
    Int { index: i32, value: IVec },
}

impl UniformWrite {
    /// The register the write targets.
    pub open spec fn spec_index(self) -> i32 {
        match self {
            UniformWrite::Float { index, .. } => index,
            UniformWrite::Bool { index, .. } => index,
            UniformWrite::Int { index, .. } => index,
        }
    }
}

impl Uniform {
    /// First valid register of this kind of uniform.
    pub open spec fn spec_range_start(self) -> u8 {
        match self {
            Uniform::Int(_) => 0x60,
            Uniform::Bool(_) => 0x68,
            _ => 0,
        }
    }

    /// One past the last valid register of this kind of uniform.
    pub open spec fn spec_range_end(self) -> u8 {
        match self {
            Uniform::Int(_) => 0x64,
            Uniform::Bool(_) => 0x79,
            _ => 0x60,
        }
    }

    /// How many registers this uniform writes to.
    pub open spec fn spec_len(self) -> nat {
        match self {
            Uniform::Float(_) => 1,
            Uniform::Float2(_) => 2,
            Uniform::Float3(_) => 3,
            Uniform::Float4(_) => 4,
            Uniform::Bool(_) => 1,
            Uniform::Int(_) => 1,
        }
    }

    /// Whether this uniform may be bound at register `index`: the index lies in the
    /// uniform's range and the uniform does not overflow it.
    pub open spec fn spec_can_bind(self, index: Index) -> bool {
        &&& self.spec_range_start() <= index.spec_value() < self.spec_range_end()
        &&& self.spec_range_end() >= self.spec_len() + index.spec_value()
    }

    /// The float vectors that a float uniform writes, one per register.
    pub open spec fn spec_floats(self) -> Seq<FVec4> {
        match self {
            Uniform::Float(f) => seq![f],
            Uniform::Float2(fs) => fs@,
            Uniform::Float3(fs) => fs@,
            Uniform::Float4(m) => Seq::new(4, |i: int| FVec4::spec_from_raw(m.spec_raw()@[i])),
            _ => Seq::empty(),
        }
    }

    /// The register writes that binding this uniform at `index` performs.
    pub open spec fn spec_writes(self, index: Index) -> Seq<UniformWrite> {
        match self {
            Uniform::Bool(b) => seq![UniformWrite::Bool { index: index.spec_value() as i32, value: b }],
            Uniform::Int(v) => seq![UniformWrite::Int { index: index.spec_value() as i32, value: v }],
            _ => Seq::new(
                self.spec_floats().len(),
                |i: int|
                    UniformWrite::Float {
                        index: (index.spec_value() + i) as i32,
                        value: self.spec_floats()[i],
                    },
            ),
        }
    }

    /// Get range of valid indexes for this uniform to bind to
    pub fn index_range(&self) -> (r: Range<Index>)
        ensures
            r.start == Index::spec_new(self.spec_range_start()),
            r.end == Index::spec_new(self.spec_range_end()),
    {
        match self {
            Uniform::Float(_) | Uniform::Float2(_) | Uniform::Float3(_) | Uniform::Float4(_) => {
                Index(0)..Index(0x60)
            },
            Uniform::Int(_) => Index(0x60)..Index(0x64),
            Uniform::Bool(_) => Index(0x68)..Index(0x79),
        }
    }

    /// Get length of uniform, i.e. how many registers it will write to
    pub fn len(&self) -> (r: usize)
        ensures
            r == self.spec_len(),
    {
        match self {
            Uniform::Float(_) => 1,
            Uniform::Float2(_) => 2,
            Uniform::Float3(_) => 3,
            Uniform::Float4(_) => 4,
            Uniform::Bool(_) | Uniform::Int(_) => 1,
        }
    }

    /// Whether this uniform may be bound at register `index`.
    pub fn can_bind(&self, index: Index) -> (r: bool)
        ensures
            r == self.spec_can_bind(index),
    {
        let range = self.index_range();
        range.start.0 <= index.0 && index.0 < range.end.0 && range.end.0 as usize >= self.len()
            + index.0 as usize
    }

    /// The register writes that bind this uniform at `index`, in order.
    pub fn bind(self, index: Index) -> (r: Vec<UniformWrite>)
        requires
            self.spec_can_bind(index),
        ensures
            r@ == self.spec_writes(index),
    {
        let mut writes: Vec<UniformWrite> = Vec::new();
        match self {
            Uniform::Bool(b) => {
                writes.push(UniformWrite::Bool { index: index.0 as i32, value: b });
            },
            Uniform::Int(v) => {
                writes.push(UniformWrite::Int { index: index.0 as i32, value: v });
            },
            Uniform::Float(f) => {
                Self::push_floats(&mut writes, index, &[f]);
            },
            Uniform::Float2(fs) => {
                Self::push_floats(&mut writes, index, &fs);
            },
            Uniform::Float3(fs) => {
                Self::push_floats(&mut writes, index, &fs);
            },
            Uniform::Float4(m) => {
                let rows = m.rows_wzyx();
                Self::push_floats(&mut writes, index, &rows);
            },
        }
        proof {
            assert(writes@ =~= self.spec_writes(index));
        }
        writes
    }

    /// Binding a uniform where it may be bound writes exactly as many registers as
    /// the uniform's length, each inside the uniform's valid range, one after the other.
    pub proof fn lemma_writes_in_range(self, index: Index)
        requires
            self.spec_can_bind(index),
        ensures
            self.spec_writes(index).len() == self.spec_len(),
            forall|i: int|
                0 <= i < self.spec_len() ==> {
                    &&& #[trigger] self.spec_writes(index)[i].spec_index() == index.spec_value() + i
                    &&& self.spec_range_start() <= self.spec_writes(index)[i].spec_index()
                        < self.spec_range_end()
                },
    {
    }

    /// Binding a uniform at `index` writes element `i` of the uniform, in its given
    /// order, to register `index + i`: the vector of a `Float`, the array elements of
    /// a `Float2` or `Float3`, and the rows (in WZYX form) of a `Float4` matrix; a
    /// boolean or integer uniform is one write to register `index`.
    pub proof fn lemma_writes_in_order(self, index: Index)
        ensures
            match self {
                Uniform::Float(f) => self.spec_writes(index) == seq![
                    UniformWrite::Float { index: index.spec_value() as i32, value: f },
                ],
                Uniform::Float2(fs) => self.spec_writes(index).len() == 2 && forall|i: int|
                    0 <= i < 2 ==> #[trigger] self.spec_writes(index)[i] == (UniformWrite::Float {
                        index: (index.spec_value() + i) as i32,
                        value: fs@[i],
                    }),
                Uniform::Float3(fs) => self.spec_writes(index).len() == 3 && forall|i: int|
                    0 <= i < 3 ==> #[trigger] self.spec_writes(index)[i] == (UniformWrite::Float {
                        index: (index.spec_value() + i) as i32,
                        value: fs@[i],
                    }),
                Uniform::Float4(m) => self.spec_writes(index).len() == 4 && forall|i: int|
                    0 <= i < 4 ==> (#[trigger] self.spec_writes(index)[i] matches UniformWrite::Float {
                        index: k,
                        value: v,
                    } && k == (index.spec_value() + i) as i32 && v.spec_raw() == m.spec_raw()@[i]@),
                Uniform::Bool(b) => self.spec_writes(index) == seq![
                    UniformWrite::Bool { index: index.spec_value() as i32, value: b },
                ],
                Uniform::Int(v) => self.spec_writes(index) == seq![
                    UniformWrite::Int { index: index.spec_value() as i32, value: v },
                ],
            },
    {
        match self {
            Uniform::Float(f) => {
                assert(self.spec_writes(index) =~= seq![
                    UniformWrite::Float { index: index.spec_value() as i32, value: f },
                ]);
            },
            Uniform::Float4(m) => {
                assert forall|i: int| 0 <= i < 4 implies (#[trigger] self.spec_writes(index)[i] matches UniformWrite::Float {
                    index: k,
                    value: v,
                } && k == (index.spec_value() + i) as i32 && v.spec_raw() == m.spec_raw()@[i]@) by {
                    FVec4::lemma_from_raw(m.spec_raw()@[i]);
                }
            },
            _ => {},
        }
    }

    fn push_floats(writes: &mut Vec<UniformWrite>, index: Index, fs: &[FVec4])
        requires
            old(writes)@.len() == 0,
            fs@.len() + index.spec_value() <= 0x60,
        ensures
            final(writes)@ == Seq::new(
                fs@.len(),
                |i: int| UniformWrite::Float { index: (index.spec_value() + i) as i32, value: fs@[i] },
            ),
    {
        let mut off: usize = 0;
        while off < fs.len()
            invariant
                off <= fs@.len(),
                fs@.len() + index.spec_value() <= 0x60,
                writes@ == Seq::new(
                    off as nat,
                    |i: int|
                        UniformWrite::Float { index: (index.spec_value() + i) as i32, value: fs@[i] },
                ),
            decreases fs@.len() - off,
        {
            writes.push(UniformWrite::Float { index: (index.0 as usize + off) as i32, value: fs[off] });
            off = off + 1;
            proof {
                assert(writes@ =~= Seq::new(
                    off as nat,
                    |i: int|
                        UniformWrite::Float { index: (index.spec_value() + i) as i32, value: fs@[i] },
                ));
            }
        }
    }
}

impl From<Matrix4> for Uniform {
    fn from(value: Matrix4) -> (r: Self)
        ensures
            r == Uniform::Float4(value),
    {
        Uniform::Float4(value)
    }
}

impl vstd::std_specs::convert::FromSpecImpl<Matrix4> for Uniform {
    open spec fn obeys_from_spec() -> bool {
        true
    }

    open spec fn from_spec(value: Matrix4) -> Uniform {
        Uniform::Float4(value)
    }
}

impl From<[FVec4; 3]> for Uniform {
    fn from(value: [FVec4; 3]) -> (r: Self)
        ensures
            r == Uniform::Float3(value),
    {
        Uniform::Float3(value)
    }
}

impl vstd::std_specs::convert::FromSpecImpl<[FVec4; 3]> for Uniform {
    open spec fn obeys_from_spec() -> bool {
        true
    }

    open spec fn from_spec(value: [FVec4; 3]) -> Uniform {
        Uniform::Float3(value)
    }
}

impl From<[FVec4; 2]> for Uniform {
    fn from(value: [FVec4; 2]) -> (r: Self)
        ensures
            r == Uniform::Float2(value),
    {
        Uniform::Float2(value)
    }
}

impl vstd::std_specs::convert::FromSpecImpl<[FVec4; 2]> for Uniform {
    open spec fn obeys_from_spec() -> bool {
        true
    }

    open spec fn from_spec(value: [FVec4; 2]) -> Uniform {
        Uniform::Float2(value)
    }
}

impl From<FVec4> for Uniform {
    fn from(value: FVec4) -> (r: Self)
        ensures
            r == Uniform::Float(value),
    {
        Uniform::Float(value)
    }
}

impl vstd::std_specs::convert::FromSpecImpl<FVec4> for Uniform {
    open spec fn obeys_from_spec() -> bool {
        true
    }

    open spec fn from_spec(value: FVec4) -> Uniform {
        Uniform::Float(value)
    }
}

impl From<IVec> for Uniform {
    fn from(value: IVec) -> (r: Self)
        ensures
            r == Uniform::Int(value),
    {
        Uniform::Int(value)
    }
}

impl vstd::std_specs::convert::FromSpecImpl<IVec> for Uniform {
    open spec fn obeys_from_spec() -> bool {
        true
    }

    open spec fn from_spec(value: IVec) -> Uniform {
        Uniform::Int(value)
    }
}

impl From<bool> for Uniform {
    fn from(value: bool) -> (r: Self)
        ensures
            r == Uniform::Bool(value),
    {
        Uniform::Bool(value)
    }
}

impl vstd::std_specs::convert::FromSpecImpl<bool> for Uniform {
    open spec fn obeys_from_spec() -> bool {
        true
    }

    open spec fn from_spec(value: bool) -> Uniform {
        Uniform::Bool(value)
    }
}

impl From<&Matrix4> for Uniform {
    fn from(value: &Matrix4) -> (r: Self)
        ensures
            r == Uniform::Float4(*value),
    {
        Uniform::Float4(*value)
    }
}

impl vstd::std_specs::convert::FromSpecImpl<&Matrix4> for Uniform {
    open spec fn obeys_from_spec() -> bool {
        true
    }

    open spec fn from_spec(value: &Matrix4) -> Uniform {
        Uniform::Float4(*value)
    }
}

} // verus!
