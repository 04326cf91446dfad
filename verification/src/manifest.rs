//! The plugin manifest (`technoir.toml` in a project, CBOR inside a package).
use vstd::prelude::*;

use crate::text::replace_char;

verus! {

#[verifier::external_type_specification]
#[verifier::external_body]
pub struct ExSemverVersion(semver::Version);

/// A plugin manifest.
pub struct PluginManifest {
    pub plugin: Plugin,
}

/// What a plugin says about itself.
pub struct Plugin {
    /// Human-readable plugin name.
    pub name: String,
    /// Globally unique reverse-domain-style plugin identifier.
    pub id: String,
    /// Plugin's own semantic version.
    pub version: semver::Version,
    /// Engine API version targeted by this plugin.
    pub api_version: semver::Version,
    /// Plugin category.
    pub plugin_type: PluginType,
    /// Main Luau entry point relative to the plugin root.
    pub entry_point: String,
    /// Short plugin description.
    pub description: Option<String>,
    /// Author name or email.
    pub author: Option<String>,
    /// SPDX license identifier.
    pub license: Option<String>,
    /// Pipeline configuration path relative to the plugin root.
    pub pipelines: String,
    /// Preview thumbnail path relative to the plugin root.
    pub icon: Option<String>,
    /// Search/filter tags.
    pub tags: Vec<String>,
}

/// Plugin category; written `"wallpaper"` in manifests.
#[derive(Clone, Copy, Debug, PartialEq, Eq, Structural)]
pub enum PluginType {
    Wallpaper,
}

/// The pipeline file a manifest names when it names none.
pub fn default_pipelines() -> (r: String)
    ensures
        r@ == "pipelines.toml"@,
{
    "pipelines.toml".to_owned()
}

impl Plugin {
    /// The chunk name under which this plugin's Luau code is loaded: its
    /// identifier with every `.` replaced by `_`.
    pub fn instance_name(&self) -> (r: String)
        ensures
            r@ == self.id@.map_values(|c: char| if c == '.' { '_' } else { c }),
    {
        replace_char(self.id.as_str(), '.', '_')
    }
}

} // verus!
