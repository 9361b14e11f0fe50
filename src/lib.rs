//! Grid layout and configurable information overlay for rendering a many-core
//! processor grid as SVG.

mod architecture;
mod bucket;
mod configuration;
mod connections;
mod error;
mod geometry;
mod information_layer;
mod loads;
mod style;
mod svg;
mod text;
mod view_box;

pub use architecture::{CoreRecord, RoutingTarget};
pub use bucket::{
    ascending_bounds, binary_search_left_insertion_point, bucket_of, lemma_bucket_ranges,
    strictly_ascending_bounds,
};
pub use configuration::{
    AttributeConfiguration, ColourConfig, Configuration, FieldConfiguration, RoutingConfiguration,
    BORDER_ROUTERS_KEY, COORDINATES_KEY, ID_KEY, ROUTING_KEY,
};
pub use connections::{
    get_connection_type, ConnectionType, ConnectionsParentGroup, Direction, DirectionType,
};
pub use error::{
    missing_channel, missing_connection, missing_source_load, missing_source_loads, SVGError,
    SVGErrorKind,
};
pub use geometry::{
    canvas_length, core_coordinates, grid_position, lemma_grid_position_bijective,
    router_coordinates, ElementKind, GridPosition, BLOCK_DISTANCE, BLOCK_LENGTH,
    CORE_ROUTER_STROKE_WIDTH, FONT_SIZE_WITH_OFFSET, HALF_SIDE_LENGTH, OFFSET_FROM_BORDER,
    ROUTER_OFFSET, SIDE_LENGTH,
};
pub use loads::{core_loads, LinkLoads};
pub use information_layer::{
    generate_with_id, get_attribute_colour, lemma_identity_line_first,
    lemma_unparsable_coloured_text_default_fill, lemma_unparsable_fill_ignored, InformationLayer,
    ProcessingInformation, TextAnchor, TextInformation,
};
pub use style::{Style, BASE_FILL_CLASS_NAME, BASE_STYLE, BORDER_STYLE, DEFAULT_FILL};
pub use svg::{
    lemma_empty_configuration, lemma_reconfiguration_idempotent, ClipPath, InformationGroup,
    ProcessingGroup, Root, UpdateResult, SVG, USE_CLIP_PATH,
};
pub use text::{decimal_string, push_decimal, push_signed_decimal};
pub use view_box::{ViewBox, EDGE_MARGIN};
