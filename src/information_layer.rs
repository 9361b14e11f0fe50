use vstd::prelude::*;
use vstd::string::StringExecFns;

use crate::bucket::{binary_search_left_insertion_point, bucket_of};
use crate::architecture::CoreRecord;
use crate::configuration::{
    lookup, lookup_entry, AttributeConfiguration, ColourConfig, Configuration, FieldConfiguration,
    COORDINATES_KEY, ID_KEY,
};
use crate::geometry::{
    core_coordinates, core_x, core_y, router_coordinates, router_x, router_y, ElementKind,
    GridPosition, FONT_SIZE_WITH_OFFSET, HALF_SIDE_LENGTH, OFFSET_FROM_BORDER, ROUTER_OFFSET,
    SIDE_LENGTH,
};
use crate::text::{decimal, parse_u64, parsed_u64, push_decimal};

verus! {

/// Horizontal alignment of a text relative to its anchor point.
#[derive(PartialEq, Eq, Structural, Clone, Copy, Debug)]
pub enum TextAnchor {
    Start,
    Middle,
    End,
}

/// A positioned line of overlay text.
pub struct TextInformation {
    pub x: u32,
    pub y: u32,
    pub text_anchor: TextAnchor,
    pub fill: String,
    pub value: String,
}

/// The model of a line of overlay text.
pub struct TextView {
    pub x: u32,
    pub y: u32,
    pub text_anchor: TextAnchor,
    pub fill: Seq<char>,
    pub value: Seq<char>,
}

impl View for TextInformation {
    type V = TextView;

    open spec fn view(&self) -> TextView {
        TextView {
            x: self.x,
            y: self.y,
            text_anchor: self.text_anchor,
            fill: self.fill@,
            value: self.value@,
        }
    }
}

/// The fill of text that no bucket colours.
pub open spec fn default_fill() -> Seq<char> {
    "black"@
}

/// A text line `<title>: <value>`.
pub open spec fn labelled(title: Seq<char>, value: Seq<char>) -> Seq<char> {
    title + ": "@ + value
}

/// The selector prefix of an element kind.
pub open spec fn kind_prefix(kind: ElementKind) -> Seq<char> {
    match kind {
        ElementKind::Core => "core"@,
        ElementKind::Router => "router"@,
    }
}

/// The CSS rule that fills the element `<kind><id>` with `colour`.
pub open spec fn fill_rule(kind: ElementKind, id: u8, colour: Seq<char>) -> Seq<char> {
    "\n#"@ + kind_prefix(kind) + decimal(id as nat) + " {fill: "@ + colour + ";}"@
}

/// The colour of the bucket of `value` among `colours`.
pub open spec fn bucket_colour(c: ColourConfig, value: u64) -> Seq<char> {
    c.colours@[bucket_of(c.bounds, value)]@
}

impl TextInformation {
    /// A text line; its fill is `fill`, or the default fill when there is none.
    pub fn new(x: u32, y: u32, text_anchor: TextAnchor, fill: Option<&String>, value: String) -> (r:
        Self)
        ensures
            r@ == (TextView {
                x,
                y,
                text_anchor,
                fill: match fill {
                    Some(f) => f@,
                    None => default_fill(),
                },
                value: value@,
            }),
    {
        TextInformation {
            x,
            y,
            text_anchor,
            fill: match fill {
                Some(f) => f.clone(),
                None => String::from_str("black"),
            },
            value,
        }
    }

    /// A copy of this line.
    pub fn duplicate(&self) -> (r: Self)
        ensures
            r@ == self@,
    {
        TextInformation {
            x: self.x,
            y: self.y,
            text_anchor: self.text_anchor,
            fill: self.fill.clone(),
            value: self.value.clone(),
        }
    }
}

/// The overlay of one box: its text lines, and whether they need a
/// background filter to stay legible over a fill.
pub struct ProcessingInformation {
    pub filter: bool,
    pub information: Vec<TextInformation>,
}

/// The model of the overlay of one box.
pub struct ProcessingView {
    pub filter: bool,
    pub information: Seq<TextView>,
}

impl View for ProcessingInformation {
    type V = ProcessingView;

    open spec fn view(&self) -> ProcessingView {
        ProcessingView {
            filter: self.filter,
            information: self.information@.map_values(|t: TextInformation| t@),
        }
    }
}

impl ProcessingInformation {
    /// An overlay with no text and no filter.
    pub fn new() -> (r: Self)
        ensures
            r@ == empty_processing(),
    {
        let r = ProcessingInformation { filter: false, information: Vec::new() };
        assert(r@.information =~= Seq::<TextView>::empty());
        r
    }

    /// A copy of this overlay.
    pub fn duplicate(&self) -> (r: Self)
        ensures
            r@ == self@,
    {
        let mut information: Vec<TextInformation> = Vec::new();
        let mut i: usize = 0;
        while i < self.information.len()
            invariant
                i <= self.information@.len(),
                information@.len() == i,
                forall|j: int| 0 <= j < i ==> (#[trigger] information@[j])@ == self.information@[j]@,
            decreases self.information@.len() - i,
        {
            information.push(self.information[i].duplicate());
            i += 1;
        }
        let r = ProcessingInformation { filter: self.filter, information };
        assert(r@.information =~= self@.information);
        r
    }
}

/// The model of an overlay with no text and no filter.
pub open spec fn empty_processing() -> ProcessingView {
    ProcessingView { filter: false, information: Seq::empty() }
}

/// The state of overlay generation for one box: the lines so far, the
/// filter flag, the stylesheet, and the baseline of the next line.
pub struct OverlayState {
    pub texts: Seq<TextView>,
    pub filter: bool,
    pub css: Seq<char>,
    pub y: u32,
}

/// Appends a text line at the current baseline and moves the baseline one
/// line down.
pub open spec fn emit_line(
    st: OverlayState,
    x: u32,
    anchor: TextAnchor,
    fill: Seq<char>,
    value: Seq<char>,
) -> OverlayState {
    OverlayState {
        texts: st.texts.push(TextView { x, y: st.y, text_anchor: anchor, fill, value }),
        y: st.y.saturating_add(FONT_SIZE_WITH_OFFSET),
        ..st
    }
}

/// The effect of one configured key on the overlay of an element.
pub open spec fn overlay_entry(
    st: OverlayState,
    key: Seq<char>,
    fc: FieldConfiguration,
    id: u8,
    kind: ElementKind,
    attributes: Seq<(String, String)>,
    x: u32,
    anchor: TextAnchor,
) -> OverlayState {
    if key == ID_KEY@ || key == COORDINATES_KEY@ {
        st
    } else {
        match lookup(attributes, key) {
            None => st,
            Some(value) => match fc {
                FieldConfiguration::Text(title) => emit_line(
                    st,
                    x,
                    anchor,
                    default_fill(),
                    labelled(title@, value@),
                ),
                FieldConfiguration::Fill(c) => match parsed_u64(value@) {
                    Some(n) => OverlayState {
                        css: st.css + fill_rule(kind, id, bucket_colour(c, n)),
                        filter: true,
                        ..st
                    },
                    None => st,
                },
                FieldConfiguration::ColouredText(title, c) => emit_line(
                    st,
                    x,
                    anchor,
                    match parsed_u64(value@) {
                        Some(n) => bucket_colour(c, n),
                        None => default_fill(),
                    },
                    labelled(title@, value@),
                ),
                _ => st,
            },
        }
    }
}

/// The effect of configured entries, in order, on the overlay of an element.
pub open spec fn overlay_entries(
    st: OverlayState,
    entries: Seq<(String, FieldConfiguration)>,
    id: u8,
    kind: ElementKind,
    attributes: Seq<(String, String)>,
    x: u32,
    anchor: TextAnchor,
) -> OverlayState
    decreases entries.len(),
{
    if entries.len() == 0 {
        st
    } else {
        overlay_entry(
            overlay_entries(st, entries.drop_last(), id, kind, attributes, x, anchor),
            entries.last().0@,
            entries.last().1,
            id,
            kind,
            attributes,
            x,
            anchor,
        )
    }
}

/// The identity line, when the identity key is configured as text.
pub open spec fn overlay_identity(
    st: OverlayState,
    entries: Seq<(String, FieldConfiguration)>,
    id: u8,
    x: u32,
    anchor: TextAnchor,
) -> OverlayState {
    match lookup(entries, ID_KEY@) {
        Some(FieldConfiguration::Text(title)) => emit_line(
            st,
            x,
            anchor,
            default_fill(),
            labelled(title@, decimal(id as nat)),
        ),
        _ => st,
    }
}

/// The overlay of an element whose box starts at `(base_x, base_y)`, added to
/// `group`, with its fill rules added to `css`.
pub open spec fn generated(
    base_x: u32,
    base_y: u32,
    entries: Seq<(String, FieldConfiguration)>,
    id: u8,
    kind: ElementKind,
    attributes: Seq<(String, String)>,
    group: ProcessingView,
    anchor: TextAnchor,
    css: Seq<char>,
) -> OverlayState {
    let x = base_x.saturating_add(OFFSET_FROM_BORDER);
    let start = OverlayState {
        texts: group.information,
        filter: group.filter,
        css,
        y: base_y.saturating_add(OFFSET_FROM_BORDER),
    };
    overlay_entries(
        overlay_identity(start, entries, id, x, anchor),
        entries,
        id,
        kind,
        attributes,
        x,
        anchor,
    )
}

/// The selector prefix of an element kind.
fn kind_prefix_str(kind: ElementKind) -> (r: &'static str)
    ensures
        r@ == kind_prefix(kind),
{
    match kind {
        ElementKind::Core => "core",
        ElementKind::Router => "router",
    }
}

/// Appends the rule that fills element `<kind><id>` with `colour` to `css`.
fn push_fill_rule(css: &mut String, kind: ElementKind, id: u8, colour: &String)
    ensures
        final(css)@ == old(css)@ + fill_rule(kind, id, colour@),
{
    css.append("\n#");
    css.append(kind_prefix_str(kind));
    push_decimal(css, id as u64);
    css.append(" {fill: ");
    css.append(colour.as_str());
    css.append(";}");
    assert(css@ =~= old(css)@ + fill_rule(kind, id, colour@));
}

/// The line `<title>: <value>`.
fn labelled_line(title: &String, value: &String) -> (r: String)
    ensures
        r@ == labelled(title@, value@),
{
    let mut s = title.clone();
    s.append(": ");
    s.append(value.as_str());
    s
}

/// The colour of the bucket of an attribute value, when the value is a
/// number.
pub fn get_attribute_colour<'a>(
    bounds: &'a [u64; 4],
    colours: &'a [String; 4],
    attribute_value: &'a String,
) -> (r: Option<&'a String>)
    requires
        crate::bucket::ascending_bounds(*bounds),
    ensures
        match parsed_u64(attribute_value@) {
            Some(n) => r == Some(&colours[bucket_of(*bounds, n)]),
            None => r is None,
        },
{
    match parse_u64(attribute_value) {
        Some(value_num) => {
            let fill_idx = binary_search_left_insertion_point(bounds, value_num);
            Some(&colours[fill_idx])
        },
        None => None,
    }
}

/// Adds to `group` the overlay of an element whose box starts at
/// `(base_x, base_y)`, and adds its fill rules to `css`: first the identity
/// line, then one step for each configured key, in order.
pub fn generate_with_id(
    base_x: u32,
    base_y: u32,
    configuration: &AttributeConfiguration,
    id: u8,
    kind: ElementKind,
    attributes: &Vec<(String, String)>,
    group: &mut ProcessingInformation,
    text_anchor: TextAnchor,
    css: &mut String,
)
    requires
        configuration.wf(),
    ensures
        ({
            let g = generated(
                base_x,
                base_y,
                configuration@,
                id,
                kind,
                attributes@,
                old(group)@,
                text_anchor,
                old(css)@,
            );
            &&& final(group)@.information == g.texts
            &&& final(group)@.filter == g.filter
            &&& final(css)@ == g.css
        }),
{
    let x = base_x.saturating_add(OFFSET_FROM_BORDER);
    let mut y = base_y.saturating_add(OFFSET_FROM_BORDER);
    let id_key = String::from_str(ID_KEY);
    let coordinates_key = String::from_str(COORDINATES_KEY);
    let ghost start = OverlayState {
        texts: group@.information,
        filter: group@.filter,
        css: css@,
        y,
    };

    // The identity is not among the attributes.
    match configuration.get(&id_key) {
        Some(FieldConfiguration::Text(title)) => {
            let line = labelled_line(title, &decimal_string_of(id));
            group.information.push(TextInformation::new(x, y, text_anchor, None, line));
            y = y.saturating_add(FONT_SIZE_WITH_OFFSET);
        },
        _ => {},
    }
    let ghost first = overlay_identity(start, configuration@, id, x, text_anchor);
    assert(group@.information =~= first.texts);

    let entries = configuration.entries();
    let mut i: usize = 0;
    assert(entries@.subrange(0, 0) =~= Seq::<(String, FieldConfiguration)>::empty());
    while i < entries.len()
        invariant
            configuration.wf(),
            entries@ == configuration@,
            i <= entries@.len(),
            id_key@ == ID_KEY@,
            coordinates_key@ == COORDINATES_KEY@,
            x == base_x.saturating_add(OFFSET_FROM_BORDER),
            ({
                let st = overlay_entries(
                    first,
                    entries@.subrange(0, i as int),
                    id,
                    kind,
                    attributes@,
                    x,
                    text_anchor,
                );
                &&& group@.information == st.texts
                &&& group@.filter == st.filter
                &&& css@ == st.css
                &&& y == st.y
            }),
        decreases entries@.len() - i,
    {
        let ghost prefix = entries@.subrange(0, i as int);
        assert(entries@.subrange(0, i + 1).drop_last() =~= prefix);
        let ghost before = group@;
        let key = &entries[i].0;
        if *key == id_key || *key == coordinates_key {
            // Both apply elsewhere.
        } else {
            match lookup_entry(attributes, key) {
                None => {},
                Some(value) => {
                    match &entries[i].1 {
                        FieldConfiguration::Text(title) => {
                            let line = labelled_line(title, value);
                            group.information.push(
                                TextInformation::new(x, y, text_anchor, None, line),
                            );
                            y = y.saturating_add(FONT_SIZE_WITH_OFFSET);
                        },
                        FieldConfiguration::Fill(colour_config) => {
                            assert(configuration@[i as int].1.wf());
                            match get_attribute_colour(
                                &colour_config.bounds,
                                &colour_config.colours,
                                value,
                            ) {
                                Some(colour) => {
                                    push_fill_rule(css, kind, id, colour);
                                    group.filter = true;
                                },
                                None => {},
                            }
                        },
                        FieldConfiguration::ColouredText(title, colour_config) => {
                            assert(configuration@[i as int].1.wf());
                            let fill = get_attribute_colour(
                                &colour_config.bounds,
                                &colour_config.colours,
                                value,
                            );
                            let line = labelled_line(title, value);
                            group.information.push(
                                TextInformation::new(x, y, text_anchor, fill, line),
                            );
                            y = y.saturating_add(FONT_SIZE_WITH_OFFSET);
                        },
                        _ => {},
                    }
                },
            }
        }
        assert(group@.information =~= overlay_entries(
            first,
            entries@.subrange(0, i + 1),
            id,
            kind,
            attributes@,
            x,
            text_anchor,
        ).texts);
        i += 1;
    }
    assert(entries@.subrange(0, entries@.len() as int) =~= entries@);
}

/// The overlay of one grid cell: the lines over its core box, those over its
/// router box, and its coordinates label.
pub struct InformationLayer {
    pub core_group: ProcessingInformation,
    pub router_group: ProcessingInformation,
    pub coordinates: Option<TextInformation>,
    /// The links that the core or its sink loads, in ascending order.
    pub loads: Vec<u64>,
}

/// The model of the overlay of one grid cell.
pub struct LayerView {
    pub core_group: ProcessingView,
    pub router_group: ProcessingView,
    pub coordinates: Option<TextView>,
    pub loads: Set<u64>,
}

impl View for InformationLayer {
    type V = LayerView;

    open spec fn view(&self) -> LayerView {
        LayerView {
            core_group: self.core_group@,
            router_group: self.router_group@,
            coordinates: match self.coordinates {
                Some(t) => Some(t@),
                None => None,
            },
            loads: self.loads@.to_set(),
        }
    }
}

/// The label of a cell: its row and column counted from one, `(row,column)`.
pub open spec fn coordinates_label(p: GridPosition) -> Seq<char> {
    "("@ + decimal((p.row + 1) as nat) + ","@ + decimal((p.column + 1) as nat) + ")"@
}

/// Horizontal anchor of router text: the right edge of the router box, less
/// the padding that generation adds back.
pub open spec fn router_text_x(p: GridPosition) -> int {
    router_x(p) + ROUTER_OFFSET - 2 * OFFSET_FROM_BORDER
}

/// The model of an overlay built by generation.
pub open spec fn processing_of(st: OverlayState) -> ProcessingView {
    ProcessingView { filter: st.filter, information: st.texts }
}

/// The overlay of the core box of a cell, with the stylesheet after it.
pub open spec fn core_overlay(
    p: GridPosition,
    configuration: Configuration,
    core: CoreRecord,
    css: Seq<char>,
) -> OverlayState {
    generated(
        core_x(p) as u32,
        core_y(p) as u32,
        configuration.core_config@,
        core.id,
        ElementKind::Core,
        core.attributes@,
        empty_processing(),
        TextAnchor::Start,
        css,
    )
}

/// The overlay of the router box of a cell, with the stylesheet after it.
pub open spec fn router_overlay(
    p: GridPosition,
    configuration: Configuration,
    core: CoreRecord,
    css: Seq<char>,
) -> OverlayState {
    generated(
        router_text_x(p) as u32,
        router_y(p) as u32,
        configuration.router_config@,
        core.id,
        ElementKind::Router,
        core.router_attributes@,
        empty_processing(),
        TextAnchor::End,
        css,
    )
}

/// The overlay of a cell, given the stylesheet before it.
pub open spec fn layer_of(
    p: GridPosition,
    configuration: Configuration,
    core: CoreRecord,
    loads: Set<u64>,
    css: Seq<char>,
) -> LayerView {
    LayerView {
        core_group: processing_of(core_overlay(p, configuration, core, css)),
        router_group: processing_of(
            router_overlay(p, configuration, core, core_overlay(p, configuration, core, css).css),
        ),
        coordinates: if lookup(configuration.core_config@, COORDINATES_KEY@) is Some {
            Some(
                TextView {
                    x: (core_x(p) + HALF_SIDE_LENGTH) as u32,
                    y: (core_y(p) + SIDE_LENGTH) as u32,
                    text_anchor: TextAnchor::Middle,
                    fill: default_fill(),
                    value: coordinates_label(p),
                },
            )
        } else {
            None
        },
        loads,
    }
}

/// The stylesheet after the overlay of a cell is generated.
pub open spec fn css_after_layer(
    p: GridPosition,
    configuration: Configuration,
    core: CoreRecord,
    css: Seq<char>,
) -> Seq<char> {
    router_overlay(p, configuration, core, core_overlay(p, configuration, core, css).css).css
}

/// The label `(row,column)` of a cell, counted from one.
fn coordinates_text(p: GridPosition) -> (r: String)
    ensures
        r@ == coordinates_label(p),
{
    let mut s = String::from_str("(");
    push_decimal(&mut s, p.row as u64 + 1);
    s.append(",");
    push_decimal(&mut s, p.column as u64 + 1);
    s.append(")");
    assert(s@ =~= coordinates_label(p));
    s
}

impl InformationLayer {
    /// The overlay of the cell at `position` holding `core`, whose routed
    /// links are `core_loads`; fill rules are added to `css`.
    pub fn new(
        position: GridPosition,
        configuration: &Configuration,
        core: &CoreRecord,
        core_loads: Vec<u64>,
        css: &mut String,
    ) -> (r: Self)
        requires
            configuration.wf(),
        ensures
            r@ == layer_of(position, *configuration, *core, core_loads@.to_set(), old(css)@),
            r.loads == core_loads,
            final(css)@ == css_after_layer(position, *configuration, *core, old(css)@),
    {
        let core_config = &configuration.core_config;
        let (cx, cy) = core_coordinates(position);

        // The coordinates key sits in the core configuration but labels the whole cell.
        let coordinates_key = String::from_str(COORDINATES_KEY);
        let coordinates = match core_config.get(&coordinates_key) {
            Some(_) => Some(
                TextInformation::new(
                    cx + HALF_SIDE_LENGTH,
                    cy + SIDE_LENGTH,
                    TextAnchor::Middle,
                    None,
                    coordinates_text(position),
                ),
            ),
            None => None,
        };

        let mut core_group = ProcessingInformation::new();
        generate_with_id(
            cx,
            cy,
            core_config,
            core.id,
            ElementKind::Core,
            &core.attributes,
            &mut core_group,
            TextAnchor::Start,
            css,
        );

        let (rx, ry) = router_coordinates(position);
        let mut router_group = ProcessingInformation::new();
        generate_with_id(
            rx + ROUTER_OFFSET - 2 * OFFSET_FROM_BORDER,
            ry,
            &configuration.router_config,
            core.id,
            ElementKind::Router,
            &core.router_attributes,
            &mut router_group,
            TextAnchor::End,
            css,
        );

        let r = InformationLayer { core_group, router_group, coordinates, loads: core_loads };
        assert(r@.core_group =~= layer_of(position, *configuration, *core, r@.loads, old(css)@).core_group);
        assert(r@.router_group =~= layer_of(position, *configuration, *core, r@.loads, old(css)@).router_group);
        r
    }

    /// A copy of this overlay.
    pub fn duplicate(&self) -> (r: Self)
        ensures
            r@ == self@,
            r.loads@ == self.loads@,
    {
        let mut loads: Vec<u64> = Vec::new();
        let mut i: usize = 0;
        while i < self.loads.len()
            invariant
                i <= self.loads@.len(),
                loads@ == self.loads@.subrange(0, i as int),
            decreases self.loads@.len() - i,
        {
            loads.push(self.loads[i]);
            i += 1;
            assert(loads@ =~= self.loads@.subrange(0, i as int));
        }
        assert(loads@ =~= self.loads@);
        InformationLayer {
            core_group: self.core_group.duplicate(),
            router_group: self.router_group.duplicate(),
            coordinates: match &self.coordinates {
                Some(t) => Some(t.duplicate()),
                None => None,
            },
            loads,
        }
    }
}

/// A `Fill` attribute whose value is not a number adds no CSS rule and
/// leaves the filter flag as it was.
pub proof fn lemma_unparsable_fill_ignored(
    st: OverlayState,
    key: Seq<char>,
    c: ColourConfig,
    value: String,
    id: u8,
    kind: ElementKind,
    attributes: Seq<(String, String)>,
    x: u32,
    anchor: TextAnchor,
)
    requires
        lookup(attributes, key) == Some(value),
        parsed_u64(value@) is None,
    ensures
        overlay_entry(st, key, FieldConfiguration::Fill(c), id, kind, attributes, x, anchor) == st,
{
}

/// A `ColouredText` attribute whose value is not a number still emits its
/// line, in the default fill.
pub proof fn lemma_unparsable_coloured_text_default_fill(
    st: OverlayState,
    key: Seq<char>,
    title: String,
    c: ColourConfig,
    value: String,
    id: u8,
    kind: ElementKind,
    attributes: Seq<(String, String)>,
    x: u32,
    anchor: TextAnchor,
)
    requires
        key != ID_KEY@,
        key != COORDINATES_KEY@,
        lookup(attributes, key) == Some(value),
        parsed_u64(value@) is None,
    ensures
        overlay_entry(st, key, FieldConfiguration::ColouredText(title, c), id, kind, attributes, x, anchor)
            == emit_line(st, x, anchor, default_fill(), labelled(title@, value@)),
        overlay_entry(st, key, FieldConfiguration::ColouredText(title, c), id, kind, attributes, x, anchor).texts.last().fill
            == default_fill(),
{
}

/// Configured entries only add lines after those already there.
pub proof fn lemma_entries_keep_lines(
    st: OverlayState,
    entries: Seq<(String, FieldConfiguration)>,
    id: u8,
    kind: ElementKind,
    attributes: Seq<(String, String)>,
    x: u32,
    anchor: TextAnchor,
)
    ensures
        overlay_entries(st, entries, id, kind, attributes, x, anchor).texts.len() >= st.texts.len(),
        forall|k: int|
            0 <= k < st.texts.len() ==> #[trigger] overlay_entries(
                st,
                entries,
                id,
                kind,
                attributes,
                x,
                anchor,
            ).texts[k] == st.texts[k],
    decreases entries.len(),
{
    if entries.len() > 0 {
        lemma_entries_keep_lines(st, entries.drop_last(), id, kind, attributes, x, anchor);
    }
}

/// When the identity key is configured as text, the identity line
/// `<label>: <id>` comes first among the lines that generation adds, before
/// any other configured attribute.
pub proof fn lemma_identity_line_first(
    base_x: u32,
    base_y: u32,
    entries: Seq<(String, FieldConfiguration)>,
    title: String,
    id: u8,
    kind: ElementKind,
    attributes: Seq<(String, String)>,
    group: ProcessingView,
    anchor: TextAnchor,
    css: Seq<char>,
)
    requires
        lookup(entries, ID_KEY@) == Some(FieldConfiguration::Text(title)),
    ensures
        ({
            let g = generated(base_x, base_y, entries, id, kind, attributes, group, anchor, css);
            &&& g.texts.len() > group.information.len()
            &&& g.texts[group.information.len() as int] == (TextView {
                x: base_x.saturating_add(OFFSET_FROM_BORDER),
                y: base_y.saturating_add(OFFSET_FROM_BORDER),
                text_anchor: anchor,
                fill: default_fill(),
                value: labelled(title@, decimal(id as nat)),
            })
        }),
{
    let x = base_x.saturating_add(OFFSET_FROM_BORDER);
    let start = OverlayState {
        texts: group.information,
        filter: group.filter,
        css,
        y: base_y.saturating_add(OFFSET_FROM_BORDER),
    };
    let first = overlay_identity(start, entries, id, x, anchor);
    lemma_entries_keep_lines(first, entries, id, kind, attributes, x, anchor);
    assert(first.texts[group.information.len() as int] == first.texts.last());
}

/// The decimal notation of an identity.
fn decimal_string_of(id: u8) -> (r: String)
    ensures
        r@ == decimal(id as nat),
{
    crate::text::decimal_string(id as u64)
}

} // verus!
