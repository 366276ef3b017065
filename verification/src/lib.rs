pub mod apply;
pub mod change;
pub mod change_surface;
pub mod configuration;
pub mod desktop_input;
pub mod desktop_state;
pub mod desktop_system;
pub mod effects;
pub mod event_router;
pub mod event_sourcing;
pub mod focus_manager;
pub mod focus_path;
pub mod focus_tree;
pub mod hierarchy_focus;
pub mod id_map;
pub mod ids;
pub mod keyboard_shortcuts;
pub mod layout;
pub mod matrix_navigation;
pub mod matrix_positions;
pub mod navigation;
pub mod ordered_hierarchy;
pub mod planning;
pub mod project_configuration;
pub mod projects;
pub mod setup;
pub mod topology;

pub use desktop_system::{CameraPresentationMode, FocusDepth, KeyboardFocusReason, TransactionEffectsMode};
pub use id_map::{IdMap, MapError};
pub use focus_path::{FocusPath, FocusTransition};
pub use ids::{DesktopTarget, InstanceId, LaunchProfileId, NodeKey, ProjectId, ViewId};
pub use matrix_positions::{MatrixError, MatrixPlacement, MatrixPositions, MoveDirection, RemoveSlotShiftingPolicy};
pub use navigation::{Direction, NavigationControl};
pub use ordered_hierarchy::{DirectionBias, Entry, HierarchyError, OrderedHierarchy};
pub use topology::DesktopTopology;
