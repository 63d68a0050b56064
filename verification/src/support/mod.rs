pub mod dirs;
pub mod path;
pub mod prompt;
pub mod text;

pub use path::{
    collapse_home, default_clash_output_path, detect_default_identity_file, expand_tilde,
    home_dir, preferred_identity_file,
};
pub use prompt::{resolve_default, resolve_required, resolve_yes_no};
