use vstd::prelude::*;
use crate::components::viewport::models::Position;
use crate::store::{Connector, ConnectorView};

verus! {

/// One connector together with the document position that was measured for
/// it.
#[derive(Debug, PartialEq, Eq)]
pub struct MeasuredConnector {
    pub connector: Connector,
    pub position: Position,
}

/// The last-known geometry of the rendered connectors: for each connector
/// that is mounted, where it lies in the document. A connector that is not
/// listed is unresolved.
#[derive(Debug, PartialEq, Eq)]
pub struct Layout {
    measured: Vec<MeasuredConnector>,
}

/// The table that a run of measurements stands for. A later measurement of a
/// connector replaces an earlier one.
pub open spec fn positions_of(measured: Seq<MeasuredConnector>) -> Map<ConnectorView, Position>
    decreases measured.len(),
{
    if measured.len() == 0 {
        Map::empty()
    } else {
        positions_of(measured.drop_last()).insert(
            measured.last().connector@,
            measured.last().position,
        )
    }
}

/// A connector that none of the measurements from `from` on names has the
/// entry that the measurements before `from` give it.
proof fn lemma_positions_skip(measured: Seq<MeasuredConnector>, from: int, connector: ConnectorView)
    requires
        0 <= from <= measured.len(),
        forall|j: int| from <= j < measured.len() ==> measured[j].connector@ != connector,
    ensures
        positions_of(measured).contains_key(connector) == positions_of(
            measured.take(from),
        ).contains_key(connector),
        positions_of(measured).contains_key(connector) ==> positions_of(measured)[connector]
            == positions_of(measured.take(from))[connector],
    decreases measured.len(),
{
    if from == measured.len() {
        assert(measured.take(from) =~= measured);
    } else {
        let front = measured.drop_last();
        assert(front.take(from) =~= measured.take(from));
        lemma_positions_skip(front, from, connector);
    }
}

impl View for Layout {
    type V = Map<ConnectorView, Position>;

    closed spec fn view(&self) -> Map<ConnectorView, Position> {
        positions_of(self.measured@)
    }
}

impl Layout {
    /// The layout in which no connector is resolved.
    pub fn new() -> (layout: Self)
        ensures
            layout@ == Map::<ConnectorView, Position>::empty(),
    {
        Layout { measured: Vec::new() }
    }

    /// Records where a connector was measured, in document coordinates. An
    /// earlier measurement of the same connector is replaced.
    pub fn record(&mut self, connector: Connector, position: Position)
        ensures
            final(self)@ == old(self)@.insert(connector@, position),
    {
        let ghost before = self.measured@;
        self.measured.push(MeasuredConnector { connector, position });
        proof {
            assert(self.measured@.drop_last() =~= before);
        }
    }

    /// Where a connector lies in the document, if that is known.
    pub fn resolve(&self, connector: &Connector) -> (position: Option<Position>)
        ensures
            position == (if self@.contains_key(connector@) {
                Some(self@[connector@])
            } else {
                None
            }),
    {
        let mut i: usize = self.measured.len();
        while i > 0
            invariant
                i <= self.measured.len(),
                forall|j: int| i <= j < self.measured.len() ==> self.measured[j].connector@ != connector@,
            decreases i,
        {
            i -= 1;
            if self.measured[i].connector.same_as(connector) {
                proof {
                    let upto = self.measured@.take(i + 1);
                    lemma_positions_skip(self.measured@, i + 1, connector@);
                    assert(upto.last() == self.measured[i as int]);
                }
                return Some(self.measured[i].position);
            }
        }
        proof {
            lemma_positions_skip(self.measured@, 0, connector@);
            assert(self.measured@.take(0) =~= Seq::<MeasuredConnector>::empty());
        }
        None
    }
}

} // verus!
