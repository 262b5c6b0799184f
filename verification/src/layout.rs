//! The panel layout model.
//!
//! A `Layout` is the ordered collection of panels the device reports at
//! connection time, held read-only for the whole streaming session. It is
//! built once by `Layout::load` from the already-decoded fields of the
//! device's layout response; decoding the response itself (JSON over the
//! management plane) happens outside this crate.

use vstd::prelude::*;

use crate::error::NanoleafError;

verus! {

/// One physical panel: its firmware-assigned id, placement on the canvas, and
/// geometry class.
#[derive(Clone, Copy, Debug, PartialEq, Eq, Structural)]
pub struct Position {
    pub panel_id: u16,
    pub x: i32,
    pub y: i32,
    pub o: i32,
    pub shape_type: u32,
}

/// One panel record as decoded from the device's layout response, before
/// validation: every field still in the widest integer form the transport can
/// carry.
#[derive(Clone, Copy, Debug, PartialEq, Eq, Structural)]
pub struct RawPanel {
    pub panel_id: i64,
    pub x: i64,
    pub y: i64,
    pub o: i64,
    pub shape_type: i64,
}

/// A raw record fits the panel schema: the id is an unsigned 16-bit value and
/// the remaining fields fit their in-memory widths.
pub open spec fn raw_panel_representable(r: RawPanel) -> bool {
    &&& 0 <= r.panel_id <= u16::MAX
    &&& i32::MIN <= r.x <= i32::MAX
    &&& i32::MIN <= r.y <= i32::MAX
    &&& i32::MIN <= r.o <= i32::MAX
    &&& 0 <= r.shape_type <= u32::MAX
}

/// The panel a representable raw record stands for.
pub open spec fn panel_of_raw(r: RawPanel) -> Position {
    Position {
        panel_id: r.panel_id as u16,
        x: r.x as i32,
        y: r.y as i32,
        o: r.o as i32,
        shape_type: r.shape_type as u32,
    }
}

/// Panel ids are pairwise distinct.
pub open spec fn raw_ids_unique(s: Seq<RawPanel>) -> bool {
    forall|i: int, j: int| 0 <= i < j < s.len() ==> s[i].panel_id != s[j].panel_id
}

/// The panels of one shape class, in layout order.
pub open spec fn spec_panels_of_shape(s: Seq<Position>, shape: u32) -> Seq<Position> {
    s.filter(|p: Position| p.shape_type == shape)
}

/// The panel topology the device reported, immutable for the session.
pub struct Layout {
    pub num_panels: i32,
    pub side_length: i32,
    pub position_data: Vec<Position>,
}

impl Layout {
    /// The layout invariant: panel ids are unique.
    pub open spec fn wf(&self) -> bool {
        forall|i: int, j: int|
            0 <= i < j < self.position_data@.len() ==> self.position_data@[i].panel_id
                != self.position_data@[j].panel_id
    }

    /// Validate the decoded fields of the device's layout response into a
    /// `Layout`. Succeeds exactly when every record fits the panel schema,
    /// the panel ids are unique, and the two summary fields fit their widths;
    /// any other response is malformed.
    pub fn load(num_panels: i64, side_length: i64, panels: Vec<RawPanel>) -> (r: Result<
        Layout,
        NanoleafError,
    >)
        ensures
            r is Ok <==> {
                &&& i32::MIN <= num_panels <= i32::MAX
                &&& i32::MIN <= side_length <= i32::MAX
                &&& forall|i: int|
                    0 <= i < panels@.len() ==> raw_panel_representable(#[trigger] panels@[i])
                &&& raw_ids_unique(panels@)
            },
            r matches Ok(l) ==> {
                &&& l.num_panels == num_panels as i32
                &&& l.side_length == side_length as i32
                &&& l.position_data@ == panels@.map_values(|p: RawPanel| panel_of_raw(p))
                &&& l.wf()
            },
            r matches Err(e) ==> e == NanoleafError::MalformedLayout,
    {
        if num_panels < i32::MIN as i64 || num_panels > i32::MAX as i64 {
            return Err(NanoleafError::MalformedLayout);
        }
        if side_length < i32::MIN as i64 || side_length > i32::MAX as i64 {
            return Err(NanoleafError::MalformedLayout);
        }
        let n = panels.len();
        let mut out: Vec<Position> = Vec::with_capacity(n);
        let mut i: usize = 0;
        while i < n
            invariant
                n == panels@.len(),
                i <= n,
                forall|k: int| 0 <= k < i ==> raw_panel_representable(#[trigger] panels@[k]),
                out@ == panels@.take(i as int).map_values(|p: RawPanel| panel_of_raw(p)),
            decreases n - i,
        {
            let p = panels[i];
            if p.panel_id < 0 || p.panel_id > u16::MAX as i64 {
                return Err(NanoleafError::MalformedLayout);
            }
            if p.x < i32::MIN as i64 || p.x > i32::MAX as i64 {
                return Err(NanoleafError::MalformedLayout);
            }
            if p.y < i32::MIN as i64 || p.y > i32::MAX as i64 {
                return Err(NanoleafError::MalformedLayout);
            }
            if p.o < i32::MIN as i64 || p.o > i32::MAX as i64 {
                return Err(NanoleafError::MalformedLayout);
            }
            if p.shape_type < 0 || p.shape_type > u32::MAX as i64 {
                return Err(NanoleafError::MalformedLayout);
            }
            out.push(
                Position {
                    panel_id: p.panel_id as u16,
                    x: p.x as i32,
                    y: p.y as i32,
                    o: p.o as i32,
                    shape_type: p.shape_type as u32,
                },
            );
            proof {
                assert(out@ =~= panels@.take(i + 1).map_values(|p: RawPanel| panel_of_raw(p)));
            }
            i = i + 1;
        }
        let mut a: usize = 0;
        while a < n
            invariant
                n == panels@.len(),
                a <= n,
                forall|i: int, j: int|
                    0 <= i < j < n && i < a ==> panels@[i].panel_id != panels@[j].panel_id,
            decreases n - a,
        {
            let mut b: usize = a + 1;
            while b < n
                invariant
                    n == panels@.len(),
                    a < b || a + 1 == b,
                    a < n,
                    b <= n,
                    forall|j: int| a < j < b ==> panels@[a as int].panel_id != panels@[j].panel_id,
                decreases n - b,
            {
                if panels[a].panel_id == panels[b].panel_id {
                    return Err(NanoleafError::MalformedLayout);
                }
                b = b + 1;
            }
            a = a + 1;
        }
        proof {
            assert(panels@.take(n as int) =~= panels@);
            let mapped = panels@.map_values(|p: RawPanel| panel_of_raw(p));
            assert forall|i: int, j: int|
                0 <= i < j < mapped.len() implies (#[trigger] mapped[i]).panel_id != (
            #[trigger] mapped[j]).panel_id by {
                assert(raw_panel_representable(panels@[i]));
                assert(raw_panel_representable(panels@[j]));
                assert(mapped[i] == panel_of_raw(panels@[i]));
                assert(mapped[j] == panel_of_raw(panels@[j]));
            }
        }
        Ok(
            Layout {
                num_panels: num_panels as i32,
                side_length: side_length as i32,
                position_data: out,
            },
        )
    }

    /// All panels of the given shape class, in layout order: a pure query
    /// with no side effects.
    pub fn panels_of_shape(&self, shape: u32) -> (r: Vec<Position>)
        ensures
            r@ == spec_panels_of_shape(self.position_data@, shape),
    {
        let pd = &self.position_data;
        let n = pd.len();
        let mut out: Vec<Position> = Vec::new();
        let mut i: usize = 0;
        while i < n
            invariant
                n == pd@.len(),
                i <= n,
                out@ == spec_panels_of_shape(pd@.take(i as int), shape),
            decreases n - i,
        {
            let p = pd[i];
            if p.shape_type == shape {
                out.push(p);
            }
            proof {
                reveal(Seq::filter);
                assert(pd@.take(i + 1).drop_last() =~= pd@.take(i as int));
                assert(pd@.take(i + 1).last() == pd@[i as int]);
            }
            i = i + 1;
        }
        proof {
            assert(pd@.take(n as int) =~= pd@);
        }
        out
    }
}

} // verus!
