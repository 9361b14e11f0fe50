use vstd::prelude::*;

use crate::error::{message_with_number, SVGError, SVGErrorKind};
use crate::geometry::GridPosition;
use crate::text::decimal;
use vstd::string::StringExecFns;

verus! {

/// A side of a grid cell.
#[derive(PartialEq, Eq, Structural, Clone, Copy, Debug)]
pub enum Direction {
    North,
    East,
    South,
    West,
}

/// A link of a core: leaving it, or entering it, on one side.
#[derive(PartialEq, Eq, Structural, Clone, Copy, Debug)]
pub enum DirectionType {
    Output(Direction),
    Input(Direction),
}

/// Where a link of a core leads.
#[derive(PartialEq, Eq, Structural, Clone, Copy, Debug)]
pub enum ConnectionType {
    /// To the core at this linear index.
    Connection(usize),
    /// Off the grid, to its border.
    EdgeConnection,
}

/// The name of a side.
pub open spec fn direction_name(d: Direction) -> Seq<char> {
    match d {
        Direction::North => "North"@,
        Direction::East => "East"@,
        Direction::South => "South"@,
        Direction::West => "West"@,
    }
}

/// The name of a link, such as `Output North`.
pub open spec fn direction_type_name(d: DirectionType) -> Seq<char> {
    match d {
        DirectionType::Output(s) => "Output "@ + direction_name(s),
        DirectionType::Input(s) => "Input "@ + direction_name(s),
    }
}

/// The linear index of the neighbour of cell `p` on side `d`, if the grid
/// holds one.
pub open spec fn neighbour(p: GridPosition, d: Direction, rows: u8, columns: u8) -> Option<int> {
    match d {
        Direction::North => if p.row > 0 {
            Some((p.row - 1) * columns + p.column)
        } else {
            None
        },
        Direction::South => if p.row + 1 < rows {
            Some((p.row + 1) * columns + p.column)
        } else {
            None
        },
        Direction::East => if p.column + 1 < columns {
            Some(p.row * columns + p.column + 1)
        } else {
            None
        },
        Direction::West => if p.column > 0 {
            Some(p.row * columns + p.column - 1)
        } else {
            None
        },
    }
}

/// Where the links of cell `p` on side `d` lead.
pub open spec fn connection_on(p: GridPosition, d: Direction, rows: u8, columns: u8) -> ConnectionType {
    match neighbour(p, d, rows, columns) {
        Some(n) => ConnectionType::Connection(n as usize),
        None => ConnectionType::EdgeConnection,
    }
}

/// The links of cell `p`: on each side in turn, the outgoing then the
/// incoming one.
pub open spec fn connections_of(p: GridPosition, rows: u8, columns: u8) -> Seq<
    (DirectionType, ConnectionType),
> {
    seq![
        (DirectionType::Output(Direction::North), connection_on(p, Direction::North, rows, columns)),
        (DirectionType::Input(Direction::North), connection_on(p, Direction::North, rows, columns)),
        (DirectionType::Output(Direction::East), connection_on(p, Direction::East, rows, columns)),
        (DirectionType::Input(Direction::East), connection_on(p, Direction::East, rows, columns)),
        (DirectionType::Output(Direction::South), connection_on(p, Direction::South, rows, columns)),
        (DirectionType::Input(Direction::South), connection_on(p, Direction::South, rows, columns)),
        (DirectionType::Output(Direction::West), connection_on(p, Direction::West, rows, columns)),
        (DirectionType::Input(Direction::West), connection_on(p, Direction::West, rows, columns)),
    ]
}

/// The first link of `s` of type `d`.
pub open spec fn find_link(s: Seq<(DirectionType, ConnectionType)>, d: DirectionType) -> Option<
    ConnectionType,
>
    decreases s.len(),
{
    if s.len() == 0 {
        None
    } else if s[0].0 == d {
        Some(s[0].1)
    } else {
        find_link(s.drop_first(), d)
    }
}

/// The links of every core, by linear index.
pub struct ConnectionsParentGroup {
    core_connections_map: Vec<Vec<(DirectionType, ConnectionType)>>,
}

impl ConnectionsParentGroup {
    pub closed spec fn view(&self) -> Seq<Seq<(DirectionType, ConnectionType)>> {
        self.core_connections_map@.map_values(|v: Vec<(DirectionType, ConnectionType)>| v@)
    }

    /// A topology with no core.
    pub fn new() -> (r: Self)
        ensures
            r@ == Seq::<Seq<(DirectionType, ConnectionType)>>::empty(),
    {
        let r = ConnectionsParentGroup { core_connections_map: Vec::new() };
        assert(r@ =~= Seq::<Seq<(DirectionType, ConnectionType)>>::empty());
        r
    }

    /// Records the links of the next core, which sits at `p` in a grid of
    /// `rows` by `columns` cells.
    pub fn add_connections(&mut self, p: GridPosition, rows: u8, columns: u8)
        requires
            p.row < rows,
            p.column < columns,
        ensures
            final(self)@ == old(self)@.push(connections_of(p, rows, columns)),
    {
        let mut links: Vec<(DirectionType, ConnectionType)> = Vec::new();
        let north = neighbour_link(p, Direction::North, rows, columns);
        let east = neighbour_link(p, Direction::East, rows, columns);
        let south = neighbour_link(p, Direction::South, rows, columns);
        let west = neighbour_link(p, Direction::West, rows, columns);
        links.push((DirectionType::Output(Direction::North), north));
        links.push((DirectionType::Input(Direction::North), north));
        links.push((DirectionType::Output(Direction::East), east));
        links.push((DirectionType::Input(Direction::East), east));
        links.push((DirectionType::Output(Direction::South), south));
        links.push((DirectionType::Input(Direction::South), south));
        links.push((DirectionType::Output(Direction::West), west));
        links.push((DirectionType::Input(Direction::West), west));
        assert(links@ =~= connections_of(p, rows, columns));
        self.core_connections_map.push(links);
        assert(self@ =~= old(self)@.push(connections_of(p, rows, columns)));
    }

    /// The links of every core, by linear index.
    pub fn core_connections_map(&self) -> (r: &Vec<Vec<(DirectionType, ConnectionType)>>)
        ensures
            r@.map_values(|v: Vec<(DirectionType, ConnectionType)>| v@) == self@,
    {
        &self.core_connections_map
    }
}

/// Where the links of cell `p` on side `d` lead.
fn neighbour_link(p: GridPosition, d: Direction, rows: u8, columns: u8) -> (r: ConnectionType)
    requires
        p.row < rows,
        p.column < columns,
    ensures
        r == connection_on(p, d, rows, columns),
{
    let r: usize = p.row as usize;
    let c: usize = p.column as usize;
    let w: usize = columns as usize;
    assert(0 <= (r + 1) * w <= 256 * 256) by (nonlinear_arith)
        requires
            r < 256,
            w < 256,
    ;
    assert(r * w <= (r + 1) * w) by (nonlinear_arith)
        requires
            w >= 0,
            r >= 0,
    ;
    match d {
        Direction::North => if r > 0 {
            assert((r - 1) * w <= r * w) by (nonlinear_arith)
                requires
                    w >= 0,
                    r >= 1,
            ;
            ConnectionType::Connection((r - 1) * w + c)
        } else {
            ConnectionType::EdgeConnection
        },
        Direction::South => if r + 1 < rows as usize {
            assert(0 <= (r + 1) * w + c <= 256 * 256 + 256);
            ConnectionType::Connection((r + 1) * w + c)
        } else {
            ConnectionType::EdgeConnection
        },
        Direction::East => if c + 1 < w {
            ConnectionType::Connection(r * w + c + 1)
        } else {
            ConnectionType::EdgeConnection
        },
        Direction::West => if c > 0 {
            ConnectionType::Connection(r * w + c - 1)
        } else {
            ConnectionType::EdgeConnection
        },
    }
}

/// The name of a side.
pub(crate) fn direction_str(d: Direction) -> (r: &'static str)
    ensures
        r@ == direction_name(d),
{
    match d {
        Direction::North => "North",
        Direction::East => "East",
        Direction::South => "South",
        Direction::West => "West",
    }
}

/// The message of a link of a core that could not be found.
pub open spec fn missing_link_message(d: DirectionType, core_id: u8) -> Seq<char> {
    "Could not get connection "@ + direction_type_name(d) + " for Core "@ + decimal(core_id as nat)
}

/// The message of a core whose links could not be found.
pub open spec fn missing_links_message(core_id: u8) -> Seq<char> {
    "Could not get connections for Core "@ + decimal(core_id as nat)
}

/// Determines where the link of type `direction_type` of core `core_id`
/// leads.
pub fn get_connection_type<'a>(
    connections_group: &'a ConnectionsParentGroup,
    direction_type: &'a DirectionType,
    core_id: &'a u8,
) -> (r: Result<&'a ConnectionType, SVGError>)
    ensures
        match r {
            Ok(c) => (*core_id as int) < connections_group@.len() && find_link(
                connections_group@[*core_id as int],
                *direction_type,
            ) == Some(*c),
            Err(e) => if (*core_id as int) < connections_group@.len() {
                &&& find_link(connections_group@[*core_id as int], *direction_type) is None
                &&& (e.error_kind matches SVGErrorKind::ConnectionError(m) && m@
                    == missing_link_message(*direction_type, *core_id))
            } else {
                e.error_kind matches SVGErrorKind::ConnectionError(m) && m@
                    == missing_links_message(*core_id)
            },
        },
{
    let map = connections_group.core_connections_map();
    let idx: usize = *core_id as usize;
    if idx >= map.len() {
        return Err(
            SVGError::new(
                SVGErrorKind::ConnectionError(
                    message_with_number("Could not get connections for Core ", *core_id as u64),
                ),
            ),
        );
    }
    let links = &map[idx];
    assert(links@ == connections_group@[idx as int]);
    let mut i: usize = 0;
    assert(links@.subrange(0, links@.len() as int) =~= links@);
    while i < links.len()
        invariant
            i <= links@.len(),
            (idx as int) < connections_group@.len(),
            idx == *core_id,
            links@ == connections_group@[idx as int],
            find_link(links@, *direction_type) == find_link(
                links@.subrange(i as int, links@.len() as int),
                *direction_type,
            ),
        decreases links@.len() - i,
    {
        assert(links@.subrange(i as int, links@.len() as int).drop_first() =~= links@.subrange(
            i + 1,
            links@.len() as int,
        ));
        if links[i].0 == *direction_type {
            assert(links@.subrange(i as int, links@.len() as int)[0] == links@[i as int]);
            return Ok(&links[i].1);
        }
        i += 1;
    }
    let mut m = String::from_str("Could not get connection ");
    match direction_type {
        DirectionType::Output(d) => {
            m.append("Output ");
            m.append(direction_str(*d));
        },
        DirectionType::Input(d) => {
            m.append("Input ");
            m.append(direction_str(*d));
        },
    }
    m.append(" for Core ");
    crate::text::push_decimal(&mut m, *core_id as u64);
    assert(m@ =~= missing_link_message(*direction_type, *core_id));
    Err(SVGError::new(SVGErrorKind::ConnectionError(m)))
}

} // verus!
