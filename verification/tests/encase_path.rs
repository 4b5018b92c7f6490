use core_pipeline::encase_derive::{bevy_encase_path, BEVY, BEVY_GPU, ENCASE};

fn path(segments: &[&str]) -> Vec<String> {
    segments.iter().map(|segment| segment.to_string()).collect()
}

#[test]
fn crate_names() {
    assert_eq!(BEVY, "bevy");
    assert_eq!(BEVY_GPU, "bevy_gpu");
    assert_eq!(ENCASE, "encase");
}

#[test]
fn encase_is_found_through_the_umbrella_crate() {
    assert_eq!(
        bevy_encase_path(Some(path(&["bevy"])), None, path(&["encase"])),
        path(&["bevy", "render", "gpu_resource", "encase"])
    );
}

#[test]
fn umbrella_crate_wins_over_the_gpu_crate() {
    assert_eq!(
        bevy_encase_path(Some(path(&["my_bevy"])), Some(path(&["bevy_gpu"])), path(&["encase"])),
        path(&["my_bevy", "render", "gpu_resource", "encase"])
    );
}

#[test]
fn encase_is_found_through_the_gpu_crate() {
    assert_eq!(
        bevy_encase_path(None, Some(path(&["bevy", "gpu"])), path(&["encase"])),
        path(&["bevy", "gpu", "gpu_resource", "encase"])
    );
}

#[test]
fn encase_is_taken_as_given_without_either_crate() {
    assert_eq!(bevy_encase_path(None, None, path(&["my_encase"])), path(&["my_encase"]));
    assert_eq!(bevy_encase_path(None, None, path(&[])), path(&[]));
}
