use vstd::prelude::*;
use vstd::string::{StrSliceExecFns, StringExecFns};

use crate::architecture::{CoreRecord, RoutingTarget};
use crate::configuration::{lookup, Configuration, FieldConfiguration, BORDER_ROUTERS_KEY, ROUTING_KEY};
use crate::connections::{connections_of, ConnectionType, ConnectionsParentGroup, DirectionType};
use crate::error::{message_with_number, SVGError, SVGErrorKind};
use crate::geometry::{
    canvas_extent, canvas_length, column_of, core_coordinates, core_x, core_y, grid_position,
    router_coordinates, router_x, router_y, row_of, GridPosition,
};
use crate::information_layer::{css_after_layer, layer_of, InformationLayer, LayerView};
use crate::loads::{aggregated_loads, core_loads, LinkLoads};
use crate::style::{Style, BASE_STYLE, BORDER_STYLE};
use crate::text::decimal;
use crate::view_box::{base_view_box, view_box_text, with_edges, ViewBox, ViewBoxView, MAX_EXTENT};

verus! {

/// Reference to the clip path from the main group.
pub const USE_CLIP_PATH: &'static str = "url(#mainClipPath)";

/// A polygon that clips the rendered grid.
pub struct ClipPath {
    pub polygon_points: String,
}

/// The static boxes of one grid cell.
#[derive(Clone, Copy, Debug)]
pub struct ProcessingGroup {
    pub id: u8,
    pub allocated_task: Option<u16>,
    pub position: GridPosition,
    pub core_x: u32,
    pub core_y: u32,
    pub router_x: u32,
    pub router_y: u32,
    /// Whether the cell lies on the border of the grid.
    pub on_edge: bool,
}

/// The overlay of every cell.
pub struct InformationGroup {
    groups: Vec<InformationLayer>,
}

/// What stands between the `<g>` and `</g>` that wrap a serialized overlay:
/// nothing when the text is too short to hold both.
pub open spec fn group_inner(xml: Seq<char>) -> Seq<char> {
    if xml.len() > 6 {
        xml.subrange(3, xml.len() - 4)
    } else {
        Seq::empty()
    }
}

impl InformationGroup {
    /// The content of a serialized overlay, without the `<g>` and `</g>`
    /// that wrap it.
    pub fn inner_content(dummy_xml: &str) -> (r: String)
        ensures
            r@ == group_inner(dummy_xml@),
    {
        let len = dummy_xml.unicode_len();
        if len > 6 {
            String::from_str(dummy_xml.substring_char(3, len - 4))
        } else {
            String::new()
        }
    }

    fn new(number_of_cores: &usize) -> (r: Self)
        ensures
            r.groups@.len() == 0,
    {
        InformationGroup { groups: Vec::with_capacity(*number_of_cores) }
    }
}

/// The main group of the document.
pub struct Root {
    clip_path: Option<&'static str>,
    processing_group: Vec<ProcessingGroup>,
    connections_group: ConnectionsParentGroup,
    information_group: InformationGroup,
}

/// The payload of a reconfiguration: the stylesheet, the overlay of every
/// cell, and the visible region.
pub struct UpdateResult {
    pub style: String,
    pub information_group: Vec<InformationLayer>,
    pub view_box: String,
}

/// The model of a reconfiguration payload.
pub struct UpdateView {
    pub style: Seq<char>,
    pub information_group: Seq<LayerView>,
    pub view_box: Seq<char>,
}

impl View for UpdateResult {
    type V = UpdateView;

    open spec fn view(&self) -> UpdateView {
        UpdateView {
            style: self.style@,
            information_group: self.information_group@.map_values(|l: InformationLayer| l@),
            view_box: self.view_box@,
        }
    }
}

/// The document that renders a grid of `rows` by `columns` cells.
pub struct SVG {
    view_box: ViewBox,
    style: Style,
    clip_path: Option<ClipPath>,
    root: Root,
    rows: u8,
    columns: u8,
    width: i32,
    height: i32,
}

/// The model of the document.
pub struct SvgView {
    pub rows: u8,
    pub columns: u8,
    pub width: int,
    pub height: int,
    pub processing: Seq<ProcessingGroup>,
    pub connections: Seq<Seq<(DirectionType, ConnectionType)>>,
    pub clip_path: Option<Seq<char>>,
    pub root_clip_path: Option<Seq<char>>,
    pub style: Seq<char>,
    pub view_box: ViewBoxView,
    pub layers: Seq<LayerView>,
}

/// The cell of the core at linear index `i` in a grid `columns` wide.
pub open spec fn cell_of(i: int, columns: u8) -> GridPosition {
    GridPosition { row: row_of(i, columns as int) as u8, column: column_of(i, columns as int) as u8 }
}

/// The static boxes of the cell at linear index `i`, holding `core`.
pub open spec fn processing_cell(i: int, core: CoreRecord, rows: u8, columns: u8) -> ProcessingGroup {
    let p = cell_of(i, columns);
    ProcessingGroup {
        id: core.id,
        allocated_task: core.allocated_task,
        position: p,
        core_x: core_x(p) as u32,
        core_y: core_y(p) as u32,
        router_x: router_x(p) as u32,
        router_y: router_y(p) as u32,
        on_edge: p.row == 0 || p.row + 1 == rows || p.column == 0 || p.column + 1 == columns,
    }
}

/// Whether the channel configuration asks to show the border routers.
pub open spec fn shows_border_routers(configuration: Configuration) -> bool {
    lookup(configuration.channel_config@, BORDER_ROUTERS_KEY@) == Some(
        FieldConfiguration::Boolean(true),
    )
}

/// Whether any attribute of cores, routers or channels is configured.
pub open spec fn configured(configuration: Configuration) -> bool {
    configuration.core_config@.len() > 0 || configuration.router_config@.len() > 0
        || configuration.channel_config@.len() > 0
}

/// The stylesheet before any fill rule.
pub open spec fn base_css(configuration: Configuration) -> Seq<char> {
    if shows_border_routers(configuration) {
        BASE_STYLE@ + BORDER_STYLE@
    } else {
        BASE_STYLE@
    }
}

/// The overlays of `cores`, in order, with the stylesheet after them.
pub open spec fn layers_of(
    configuration: Configuration,
    cores: Seq<CoreRecord>,
    columns: u8,
    links: Option<Seq<(RoutingTarget, Vec<u64>)>>,
    css: Seq<char>,
) -> (Seq<LayerView>, Seq<char>)
    decreases cores.len(),
{
    if cores.len() == 0 {
        (Seq::empty(), css)
    } else {
        let (ls, c) = layers_of(configuration, cores.drop_last(), columns, links, css);
        let p = cell_of(cores.len() - 1, columns);
        (
            ls.push(
                layer_of(
                    p,
                    configuration,
                    cores.last(),
                    aggregated_loads(links, (cores.len() - 1) as usize),
                    c,
                ),
            ),
            css_after_layer(p, configuration, cores.last(), c),
        )
    }
}

/// The visible region after a reconfiguration.
pub open spec fn reconfigured_view_box(v: SvgView, configuration: Configuration) -> ViewBoxView {
    if shows_border_routers(configuration) {
        with_edges(base_view_box(v.width, v.height))
    } else {
        base_view_box(v.width, v.height)
    }
}

/// The routing result as a sequence, if any.
pub open spec fn links_view(links: Option<LinkLoads>) -> Option<Seq<(RoutingTarget, Vec<u64>)>> {
    match links {
        Some(l) => Some(l@),
        None => None,
    }
}

/// The stylesheet and the overlays after a reconfiguration.
pub open spec fn reconfigured_overlay(
    v: SvgView,
    configuration: Configuration,
    cores: Seq<CoreRecord>,
    links: Option<Seq<(RoutingTarget, Vec<u64>)>>,
) -> (Seq<LayerView>, Seq<char>) {
    if configured(configuration) {
        layers_of(configuration, cores, v.columns, links, base_css(configuration))
    } else {
        (Seq::empty(), base_css(configuration))
    }
}

/// The payload of reconfiguring document `v` with `configuration` over
/// `cores`, with the routing result `links` if routing was computed.
pub open spec fn reconfigured(
    v: SvgView,
    configuration: Configuration,
    cores: Seq<CoreRecord>,
    links: Option<Seq<(RoutingTarget, Vec<u64>)>>,
) -> UpdateView {
    UpdateView {
        style: reconfigured_overlay(v, configuration, cores, links).1,
        information_group: reconfigured_overlay(v, configuration, cores, links).0,
        view_box: view_box_text(reconfigured_view_box(v, configuration)),
    }
}

/// The two documents render the same grid: they differ at most in their
/// stylesheet, overlay and visible region.
pub open spec fn same_grid(a: SvgView, b: SvgView) -> bool {
    &&& a.rows == b.rows
    &&& a.columns == b.columns
    &&& a.width == b.width
    &&& a.height == b.height
    &&& a.processing == b.processing
    &&& a.connections == b.connections
    &&& a.clip_path == b.clip_path
    &&& a.root_clip_path == b.root_clip_path
}

/// The message of a list of cores that does not fit the grid.
pub open spec fn core_count_message(found: nat) -> Seq<char> {
    "Expected one record for each core of the grid, found "@ + decimal(found)
}

/// The message of grid dimensions that do not fit the list of cores.
pub open spec fn grid_mismatch_message(found: nat) -> Seq<char> {
    "The grid dimensions do not match the number of cores, "@ + decimal(found)
}

impl SVG {
    pub closed spec fn view(&self) -> SvgView {
        SvgView {
            rows: self.rows,
            columns: self.columns,
            width: self.width as int,
            height: self.height as int,
            processing: self.root.processing_group@,
            connections: self.root.connections_group@,
            clip_path: match self.clip_path {
                Some(c) => Some(c.polygon_points@),
                None => None,
            },
            root_clip_path: match self.root.clip_path {
                Some(c) => Some(c@),
                None => None,
            },
            style: self.style@,
            view_box: self.view_box@,
            layers: self.root.information_group.groups@.map_values(|l: InformationLayer| l@),
        }
    }

    /// The grid is not empty, holds one core per cell, and the canvas fits it.
    pub open spec fn wf(&self) -> bool {
        &&& self@.rows > 0
        &&& self@.columns > 0
        &&& self@.processing.len() == self@.rows * self@.columns
        &&& self@.width == canvas_extent(self@.columns as int)
        &&& self@.height == canvas_extent(self@.rows as int)
    }

    fn new(
        number_of_cores: &usize,
        rows: u8,
        columns: u8,
        width: i32,
        height: i32,
    ) -> (r: Self)
        requires
            0 <= width <= MAX_EXTENT,
            0 <= height <= MAX_EXTENT,
        ensures
            r@ == (SvgView {
                rows,
                columns,
                width: width as int,
                height: height as int,
                processing: Seq::empty(),
                connections: Seq::empty(),
                clip_path: None,
                root_clip_path: None,
                style: BASE_STYLE@,
                view_box: base_view_box(width as int, height as int),
                layers: Seq::empty(),
            }),
    {
        let r = SVG {
            view_box: ViewBox::new(width, height),
            style: Style::default(),
            clip_path: None,
            root: Root {
                clip_path: None,
                processing_group: Vec::with_capacity(*number_of_cores),
                connections_group: ConnectionsParentGroup::new(),
                information_group: InformationGroup::new(number_of_cores),
            },
            rows,
            columns,
            width,
            height,
        };
        assert(r@.processing =~= Seq::<ProcessingGroup>::empty());
        assert(r@.layers =~= Seq::<LayerView>::empty());
        r
    }

    /// The document of a grid of `rows` by `columns` cells holding `cores`,
    /// in row-major order; an error when the dimensions do not fit the list.
    pub fn from_architecture(cores: &Vec<CoreRecord>, rows: u8, columns: u8) -> (r: Result<
        SVG,
        SVGError,
    >)
        ensures
            match r {
                Ok(s) => {
                    &&& rows > 0 && columns > 0 && cores@.len() == rows * columns
                    &&& s.wf()
                    &&& s@.rows == rows && s@.columns == columns
                    &&& s@.processing.len() == cores@.len()
                    &&& forall|i: int|
                        0 <= i < cores@.len() ==> #[trigger] s@.processing[i] == processing_cell(
                            i,
                            cores@[i],
                            rows,
                            columns,
                        )
                    &&& s@.connections.len() == cores@.len()
                    &&& forall|i: int|
                        0 <= i < cores@.len() ==> #[trigger] s@.connections[i] == connections_of(
                            cell_of(i, columns),
                            rows,
                            columns,
                        )
                    &&& s@.clip_path is None && s@.root_clip_path is None
                    &&& s@.style == BASE_STYLE@
                    &&& s@.view_box == base_view_box(s@.width, s@.height)
                    &&& s@.layers.len() == 0
                },
                Err(e) => {
                    &&& !(rows > 0 && columns > 0 && cores@.len() == rows * columns)
                    &&& e.error_kind matches SVGErrorKind::ConfigurationError(m) && m@
                        == grid_mismatch_message(cores@.len())
                },
            },
    {
        assert((rows as usize) * (columns as usize) <= 255 * 255) by (nonlinear_arith)
            requires
                rows <= 255,
                columns <= 255,
        ;
        if rows == 0 || columns == 0 || cores.len() != (rows as usize) * (columns as usize) {
            return Err(
                SVGError::new(
                    SVGErrorKind::ConfigurationError(
                        message_with_number(
                            "The grid dimensions do not match the number of cores, ",
                            cores.len() as u64,
                        ),
                    ),
                ),
            );
        }
        let width = canvas_length(columns);
        let height = canvas_length(rows);
        assert(canvas_extent(rows as int) <= MAX_EXTENT && canvas_extent(columns as int) <= MAX_EXTENT)
            by (nonlinear_arith)
            requires
                rows <= 255,
                columns <= 255,
        ;
        let mut ret = SVG::new(&cores.len(), rows, columns, width, height);

        let mut i: usize = 0;
        while i < cores.len()
            invariant
                rows > 0 && columns > 0,
                cores@.len() == rows * columns,
                i <= cores@.len(),
                ret@.rows == rows && ret@.columns == columns,
                ret@.width == canvas_extent(columns as int),
                ret@.height == canvas_extent(rows as int),
                ret@.processing.len() == i,
                forall|j: int|
                    0 <= j < i ==> #[trigger] ret@.processing[j] == processing_cell(
                        j,
                        cores@[j],
                        rows,
                        columns,
                    ),
                ret@.connections.len() == i,
                forall|j: int|
                    0 <= j < i ==> #[trigger] ret@.connections[j] == connections_of(
                        cell_of(j, columns),
                        rows,
                        columns,
                    ),
                ret@.clip_path is None && ret@.root_clip_path is None,
                ret@.style == BASE_STYLE@,
                ret@.view_box == base_view_box(ret@.width, ret@.height),
                ret@.layers.len() == 0,
            decreases cores@.len() - i,
        {
            let position = grid_position(i, rows, columns);
            assert(position == cell_of(i as int, columns));
            let (cx, cy) = core_coordinates(position);
            let (rx, ry) = router_coordinates(position);
            let core = &cores[i];
            let on_edge = position.row == 0 || position.row as u16 + 1 == rows as u16
                || position.column == 0 || position.column as u16 + 1 == columns as u16;
            ret.root.processing_group.push(
                ProcessingGroup {
                    id: core.id,
                    allocated_task: core.allocated_task,
                    position,
                    core_x: cx,
                    core_y: cy,
                    router_x: rx,
                    router_y: ry,
                    on_edge,
                },
            );
            ret.root.connections_group.add_connections(position, rows, columns);
            i += 1;
        }
        Ok(ret)
    }

    /// The routing algorithm that the channel configuration asks for, if any.
    pub fn routing_algorithm(configuration: &Configuration) -> (r: Option<&String>)
        ensures
            match lookup(configuration.channel_config@, ROUTING_KEY@) {
                Some(FieldConfiguration::Routing(c)) => r == Some(&c.algorithm),
                _ => r is None,
            },
    {
        let key = String::from_str(ROUTING_KEY);
        match configuration.channel_config.get(&key) {
            Some(FieldConfiguration::Routing(c)) => Some(&c.algorithm),
            _ => None,
        }
    }

    /// Regenerates the overlay, the stylesheet and the visible region for
    /// `configuration`, over `cores` (one per cell, in row-major order) and
    /// the routing result `links_with_load` when routing was computed, and
    /// returns them. The grid itself is left as it is.
    pub fn update_configurable_information(
        &mut self,
        cores: &Vec<CoreRecord>,
        configuration: &Configuration,
        links_with_load: &Option<LinkLoads>,
    ) -> (r: Result<UpdateResult, SVGError>)
        requires
            old(self).wf(),
            configuration.wf(),
        ensures
            final(self).wf(),
            match r {
                Ok(u) => {
                    &&& cores@.len() == old(self)@.processing.len()
                    &&& u@ == reconfigured(old(self)@, *configuration, cores@, links_view(*links_with_load))
                    &&& same_grid(final(self)@, old(self)@)
                    &&& final(self)@.style == u@.style
                    &&& final(self)@.layers == u@.information_group
                    &&& final(self)@.view_box == reconfigured_view_box(old(self)@, *configuration)
                },
                Err(e) => {
                    &&& cores@.len() != old(self)@.processing.len()
                    &&& e.error_kind matches SVGErrorKind::ManycoreMismatch(m) && m@
                        == core_count_message(cores@.len())
                    &&& final(self)@ == old(self)@
                },
            },
    {
        if cores.len() != self.root.processing_group.len() {
            return Err(
                SVGError::new(
                    SVGErrorKind::ManycoreMismatch(
                        message_with_number(
                            "Expected one record for each core of the grid, found ",
                            cores.len() as u64,
                        ),
                    ),
                ),
            );
        }
        let ghost before = self@;
        let not_empty_configuration = !configuration.core_config.is_empty()
            || !configuration.router_config.is_empty() || !configuration.channel_config.is_empty();

        // Clearing keeps the allocation for the next overlay.
        self.root.information_group.groups.clear();
        self.view_box.reset(self.width, self.height);

        // The stylesheet is always reset, so that deselecting every option shows the base render.
        let border_key = String::from_str(BORDER_ROUTERS_KEY);
        match configuration.channel_config.get(&border_key) {
            Some(FieldConfiguration::Boolean(true)) => {
                self.style = Style::base();
                self.view_box.insert_edges();
            },
            _ => {
                self.style = Style::default();
            },
        }
        assert(self@.style == base_css(*configuration));
        assert(self@.layers =~= Seq::<LayerView>::empty());

        if not_empty_configuration {
            let mut i: usize = 0;
            assert(cores@.subrange(0, 0) =~= Seq::<CoreRecord>::empty());
            while i < cores.len()
                invariant
                    configuration.wf(),
                    i <= cores@.len(),
                    cores@.len() == before.processing.len(),
                    before.processing.len() == before.rows * before.columns,
                    before.columns > 0,
                    same_grid(self@, before),
                    self@.view_box == reconfigured_view_box(before, *configuration),
                    ({
                        let (ls, css) = layers_of(
                            *configuration,
                            cores@.subrange(0, i as int),
                            before.columns,
                            links_view(*links_with_load),
                            base_css(*configuration),
                        );
                        self@.layers == ls && self@.style == css
                    }),
                decreases cores@.len() - i,
            {
                assert(cores@.subrange(0, i + 1).drop_last() =~= cores@.subrange(0, i as int));
                let position = grid_position(i, self.rows, self.columns);
                assert(position == cell_of(i as int, self.columns));
                let loads = core_loads(links_with_load, i);
                let layer = InformationLayer::new(
                    position,
                    configuration,
                    &cores[i],
                    loads,
                    &mut self.style.css,
                );
                self.root.information_group.groups.push(layer);
                assert(self@.layers =~= layers_of(
                    *configuration,
                    cores@.subrange(0, i + 1),
                    before.columns,
                    links_view(*links_with_load),
                    base_css(*configuration),
                ).0);
                i += 1;
            }
            assert(cores@.subrange(0, cores@.len() as int) =~= cores@);
        }

        let information_group = self.information_layers_copy();
        Ok(
            UpdateResult {
                style: self.style.css.clone(),
                information_group,
                view_box: self.view_box.as_string(),
            },
        )
    }

    /// A copy of the overlay of every cell.
    fn information_layers_copy(&self) -> (r: Vec<InformationLayer>)
        ensures
            r@.map_values(|l: InformationLayer| l@) == self@.layers,
    {
        let groups = &self.root.information_group.groups;
        let mut r: Vec<InformationLayer> = Vec::new();
        let mut i: usize = 0;
        while i < groups.len()
            invariant
                i <= groups@.len(),
                groups == &self.root.information_group.groups,
                r@.len() == i,
                forall|j: int| 0 <= j < i ==> (#[trigger] r@[j])@ == groups@[j]@,
            decreases groups@.len() - i,
        {
            r.push(groups[i].duplicate());
            i += 1;
        }
        assert(r@.map_values(|l: InformationLayer| l@) =~= self@.layers);
        r
    }

    /// Width of the canvas.
    pub fn width(&self) -> (r: i32)
        ensures
            r == self@.width,
    {
        self.width
    }

    /// Height of the canvas.
    pub fn height(&self) -> (r: i32)
        ensures
            r == self@.height,
    {
        self.height
    }

    /// The visible region.
    pub fn view_box(&self) -> (r: &ViewBox)
        ensures
            r@ == self@.view_box,
    {
        &self.view_box
    }

    /// The stylesheet.
    pub fn style(&self) -> (r: &Style)
        ensures
            r@ == self@.style,
    {
        &self.style
    }

    /// The overlay of every cell.
    pub fn information_layers(&self) -> (r: &Vec<InformationLayer>)
        ensures
            r@.map_values(|l: InformationLayer| l@) == self@.layers,
    {
        &self.root.information_group.groups
    }

    /// The static boxes of every cell.
    pub fn processing_groups(&self) -> (r: &Vec<ProcessingGroup>)
        ensures
            r@ == self@.processing,
    {
        &self.root.processing_group
    }

    /// The links of every core.
    pub fn connections(&self) -> (r: &ConnectionsParentGroup)
        ensures
            r@ == self@.connections,
    {
        &self.root.connections_group
    }

    /// The clip polygon, if any.
    pub fn clip_path(&self) -> (r: Option<&String>)
        ensures
            match r {
                Some(p) => self@.clip_path == Some(p@),
                None => self@.clip_path is None,
            },
    {
        match &self.clip_path {
            Some(c) => Some(&c.polygon_points),
            None => None,
        }
    }

    /// Clips the rendered grid to the polygon `polygon_points`.
    pub fn add_clip_path(&mut self, polygon_points: String)
        ensures
            final(self)@ == (SvgView {
                clip_path: Some(polygon_points@),
                root_clip_path: Some(USE_CLIP_PATH@),
                ..old(self)@
            }),
    {
        self.clip_path = Some(ClipPath { polygon_points });
        self.root.clip_path = Some(USE_CLIP_PATH);
    }

    /// Removes the clip path.
    pub fn clear_clip_path(&mut self)
        ensures
            final(self)@ == (SvgView { clip_path: None, root_clip_path: None, ..old(self)@ }),
    {
        self.clip_path = None;
        self.root.clip_path = None;
    }
}

/// Reconfiguring twice with the same configuration and cores gives the same
/// payload: a reconfiguration leaves the grid as it was, and its payload
/// depends on that grid and on its inputs alone.
pub proof fn lemma_reconfiguration_idempotent(
    first: SvgView,
    second: SvgView,
    configuration: Configuration,
    cores: Seq<CoreRecord>,
    links: Option<Seq<(RoutingTarget, Vec<u64>)>>,
)
    requires
        same_grid(first, second),
    ensures
        reconfigured(first, configuration, cores, links) == reconfigured(
            second,
            configuration,
            cores,
            links,
        ),
{
}

/// With nothing configured for cores, routers or channels (so no routing
/// directive either), a reconfiguration produces no overlay, the minimal
/// stylesheet and the base visible region.
pub proof fn lemma_empty_configuration(
    v: SvgView,
    configuration: Configuration,
    cores: Seq<CoreRecord>,
    links: Option<Seq<(RoutingTarget, Vec<u64>)>>,
)
    requires
        configuration.core_config@.len() == 0,
        configuration.router_config@.len() == 0,
        configuration.channel_config@.len() == 0,
    ensures
        reconfigured(v, configuration, cores, links).information_group.len() == 0,
        reconfigured(v, configuration, cores, links).style == BASE_STYLE@,
        reconfigured(v, configuration, cores, links).view_box == view_box_text(
            base_view_box(v.width, v.height),
        ),
{
}

} // verus!
