//! Where the derive of shader data finds the `encase` crate, given what the
//! manifest of the deriving crate depends on.

use vstd::prelude::*;

verus! {

/// The name of the umbrella crate.
pub const BEVY: &'static str = "bevy";

/// The name of the crate that holds the GPU resources on its own.
pub const BEVY_GPU: &'static str = "bevy_gpu";

/// The name of the crate that lays out shader data.
pub const ENCASE: &'static str = "encase";

/// The segments of a path, each as its characters.
pub open spec fn segments_view(path: Seq<String>) -> Seq<Seq<char>> {
    path.map_values(|segment: String| segment@)
}

/// The segments of a path that may be missing.
pub open spec fn optional_segments_view(path: Option<Vec<String>>) -> Option<Seq<Seq<char>>> {
    match path {
        Some(path) => Some(segments_view(path@)),
        None => None,
    }
}

/// The path to `encase`: through the umbrella crate where the manifest has
/// it, else through the GPU crate where the manifest has that, else the path
/// of `encase` itself.
pub open spec fn spec_bevy_encase_path(
    bevy_path: Option<Seq<Seq<char>>>,
    bevy_gpu_path: Option<Seq<Seq<char>>>,
    encase_path: Seq<Seq<char>>,
) -> Seq<Seq<char>> {
    match bevy_path {
        Some(path) => path.push("render"@).push("gpu_resource"@).push(ENCASE@),
        None => match bevy_gpu_path {
            Some(path) => path.push("gpu_resource"@).push(ENCASE@),
            None => encase_path,
        },
    }
}

/// Adds a segment at the end of a path.
fn push_segment(path: &mut Vec<String>, segment: &str)
    ensures
        segments_view(final(path)@) == segments_view(old(path)@).push(segment@),
{
    path.push(segment.to_string());
    proof {
        assert(segments_view(path@) =~= segments_view(old(path)@).push(segment@));
    }
}

/// The path under which the derive refers to `encase`.
///
/// Takes what the manifest gives for the umbrella crate, for the GPU crate
/// and for `encase` itself. With the umbrella crate the path is
/// `render::gpu_resource::encase` below it; without it but with the GPU
/// crate, `gpu_resource::encase` below that; with neither, the path of
/// `encase` as given.
pub fn bevy_encase_path(
    bevy_path: Option<Vec<String>>,
    bevy_gpu_path: Option<Vec<String>>,
    encase_path: Vec<String>,
) -> (path: Vec<String>)
    ensures
        segments_view(path@) == spec_bevy_encase_path(
            optional_segments_view(bevy_path),
            optional_segments_view(bevy_gpu_path),
            segments_view(encase_path@),
        ),
{
    match bevy_path {
        Some(bevy_path) => {
            let mut segments = bevy_path;
            push_segment(&mut segments, "render");
            push_segment(&mut segments, "gpu_resource");
            push_segment(&mut segments, ENCASE);
            segments
        },
        None => match bevy_gpu_path {
            Some(bevy_gpu_path) => {
                let mut segments = bevy_gpu_path;
                push_segment(&mut segments, "gpu_resource");
                push_segment(&mut segments, ENCASE);
                segments
            },
            None => encase_path,
        },
    }
}

} // verus!
