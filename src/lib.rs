//! A checked view of an imported 3D scene: status codes, post-processing
//! flag sets, fixed-capacity strings, meshes, materials and the scene that
//! owns them, each with the well-formedness rules the importer guarantees.

pub mod flags;
pub mod material;
pub mod mesh;
pub mod scene;
pub mod status;
pub mod text;

pub use flags::{AiPostProcessSteps, AiPrimitiveType};
pub use material::AiMaterial;
pub use mesh::{AiFace, AiMesh};
pub use scene::Scene;
pub use status::{AiPropertyTypeInfo, AiReturn};
pub use text::AiString;
