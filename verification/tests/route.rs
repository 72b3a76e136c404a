use sd_meta_sorter::origin::{MarkerSet, TargetType};
use sd_meta_sorter::route::{
    choose_folder_step, choose_transfer_step, Event, Job, Options, Outcome, Stage, Step,
};
use sd_meta_sorter::tally::summarize;

fn probe(text: &str) -> Event {
    Event::ProbeOutput { text: String::from(text), succeeded: true }
}

fn failed(cause: &str) -> Event {
    Event::Failed { cause: String::from(cause) }
}

fn copying() -> Options {
    Options { copy: true, ..Options::standard() }
}

fn started(file: &str) -> Job {
    let (job, step) = Job::start(String::from(file));
    assert_eq!(step, Step::RunProbe { file: String::from(file) });
    assert_eq!(job.stage(), Stage::Probing);
    job
}

fn errored(message: &str) -> Option<Step> {
    Some(Step::Done(Outcome::Errored { message: String::from(message) }))
}

#[test]
fn standard_options_move_into_the_two_folders() {
    let options = Options::standard();
    assert_eq!(options.comfy_dir_name, "comfyui_img");
    assert_eq!(options.webui_dir_name, "webui_image");
    assert!(!options.copy);
    assert_eq!(options.folder_for(TargetType::ComfyUI), Some(&String::from("comfyui_img")));
    assert_eq!(options.folder_for(TargetType::WebUI), Some(&String::from("webui_image")));
    assert_eq!(options.folder_for(TargetType::Unclassified), None);
}

#[test]
fn job_starts_with_the_probe() {
    let (job, step) = Job::start(String::from("/pics/a.png"));
    assert_eq!(step, Step::RunProbe { file: String::from("/pics/a.png") });
    assert_eq!(job.stage(), Stage::Probing);
    assert_eq!(job.file(), "/pics/a.png");
    assert_eq!(job.target(), TargetType::Unclassified);
}

#[test]
fn two_images_are_moved_to_their_folders() {
    let options = Options::standard();
    let markers = MarkerSet::standard();
    let mut outcomes = Vec::new();

    let mut a = started("/pics/a.png");
    assert_eq!(
        a.advance(probe("{\"workflow\": 1}"), &options, &markers),
        Some(Step::CreateDir { dir: String::from("/pics/comfyui_img") })
    );
    assert_eq!(a.target(), TargetType::ComfyUI);
    assert_eq!(
        a.advance(Event::Succeeded, &options, &markers),
        Some(Step::RenameFile {
            from: String::from("/pics/a.png"),
            to: String::from("/pics/comfyui_img/a.png"),
        })
    );
    match a.advance(Event::Succeeded, &options, &markers) {
        Some(Step::Done(outcome)) => outcomes.push(outcome),
        other => panic!("{:?}", other),
    }

    let mut b = started("/pics/b.jpg");
    assert_eq!(
        b.advance(probe("a cat, Steps: 20"), &options, &markers),
        Some(Step::CreateDir { dir: String::from("/pics/webui_image") })
    );
    assert_eq!(
        b.advance(Event::Succeeded, &options, &markers),
        Some(Step::RenameFile {
            from: String::from("/pics/b.jpg"),
            to: String::from("/pics/webui_image/b.jpg"),
        })
    );
    match b.advance(Event::Succeeded, &options, &markers) {
        Some(Step::Done(outcome)) => outcomes.push(outcome),
        other => panic!("{:?}", other),
    }

    assert_eq!(outcomes, vec![Outcome::RoutedComfyUI, Outcome::RoutedWebUI]);
    let tally = summarize(&outcomes);
    assert_eq!(tally.comfy, 1);
    assert_eq!(tally.webui, 1);
    assert_eq!(tally.skipped, 0);
    assert_eq!(tally.errors, 0);
    assert_eq!(tally.total(), 2);
}

#[test]
fn folder_is_made_beside_the_file() {
    let options = Options::standard();
    let markers = MarkerSet::standard();
    let mut deep = started("/pics/2024/may/x.webp");
    assert_eq!(
        deep.advance(probe("ComfyUI"), &options, &markers),
        Some(Step::CreateDir { dir: String::from("/pics/2024/may/comfyui_img") })
    );
    let mut bare = started("x.webp");
    assert_eq!(
        bare.advance(probe("NovelAI"), &options, &markers),
        Some(Step::CreateDir { dir: String::from("webui_image") })
    );
    assert_eq!(
        bare.advance(Event::Succeeded, &options, &markers),
        Some(Step::RenameFile {
            from: String::from("x.webp"),
            to: String::from("webui_image/x.webp"),
        })
    );
}

#[test]
fn failed_probe_is_skipped_whatever_it_printed() {
    let options = Options::standard();
    let markers = MarkerSet::standard();
    let mut job = started("/pics/a.png");
    let event = Event::ProbeOutput { text: String::from("workflow Steps: 20"), succeeded: false };
    assert_eq!(job.advance(event, &options, &markers), Some(Step::Done(Outcome::Skipped)));
    assert_eq!(job.stage(), Stage::Finished);
}

#[test]
fn image_without_marker_is_skipped() {
    let options = Options::standard();
    let markers = MarkerSet::standard();
    let mut job = started("/pics/a.png");
    assert_eq!(
        job.advance(probe("width: 512"), &options, &markers),
        Some(Step::Done(Outcome::Skipped))
    );
    assert_eq!(job.stage(), Stage::Finished);
}

#[test]
fn probe_that_cannot_be_launched_is_an_error() {
    let options = Options::standard();
    let markers = MarkerSet::standard();
    let mut job = started("/pics/a.png");
    assert_eq!(
        job.advance(failed("No such file or directory"), &options, &markers),
        errored("Exec failed: No such file or directory")
    );
    assert_eq!(job.stage(), Stage::Finished);
}

#[test]
fn file_without_parent_is_an_error() {
    let options = Options::standard();
    let markers = MarkerSet::standard();
    let mut root = started("/");
    assert_eq!(root.advance(probe("workflow"), &options, &markers), errored("Cannot get parent dir"));
    let mut empty = started("");
    assert_eq!(empty.advance(probe("Steps: 3"), &options, &markers), errored("Cannot get parent dir"));
}

#[test]
fn failed_directory_is_an_error() {
    let options = Options::standard();
    let markers = MarkerSet::standard();
    let mut job = started("/pics/a.png");
    job.advance(probe("workflow"), &options, &markers);
    assert_eq!(job.stage(), Stage::MakingDir);
    assert_eq!(
        job.advance(failed("Permission denied"), &options, &markers),
        errored("Create dir failed: Permission denied")
    );
    assert_eq!(job.stage(), Stage::Finished);
}

#[test]
fn copy_mode_copies_and_keeps_the_source() {
    let options = copying();
    let markers = MarkerSet::standard();
    let mut job = started("/pics/a.png");
    assert_eq!(
        job.advance(probe("workflow"), &options, &markers),
        Some(Step::CreateDir { dir: String::from("/pics/comfyui_img") })
    );
    assert_eq!(
        job.advance(Event::Succeeded, &options, &markers),
        Some(Step::CopyFile {
            from: String::from("/pics/a.png"),
            to: String::from("/pics/comfyui_img/a.png"),
        })
    );
    assert_eq!(job.stage(), Stage::Copying);
    assert_eq!(
        job.advance(Event::Succeeded, &options, &markers),
        Some(Step::Done(Outcome::RoutedComfyUI))
    );
    assert_eq!(job.stage(), Stage::Finished);
}

#[test]
fn failed_copy_is_an_error() {
    let options = copying();
    let markers = MarkerSet::standard();
    let mut job = started("/pics/b.jpg");
    job.advance(probe("parameters"), &options, &markers);
    job.advance(Event::Succeeded, &options, &markers);
    assert_eq!(
        job.advance(failed("disk full"), &options, &markers),
        errored("Copy failed: disk full")
    );
}

#[test]
fn failed_rename_falls_back_to_copy_and_remove() {
    let options = Options::standard();
    let markers = MarkerSet::standard();
    let mut job = started("/pics/b.jpg");
    job.advance(probe("Stable Diffusion"), &options, &markers);
    job.advance(Event::Succeeded, &options, &markers);
    assert_eq!(job.stage(), Stage::Renaming);
    assert_eq!(
        job.advance(failed("cross-device link"), &options, &markers),
        Some(Step::CopyFile {
            from: String::from("/pics/b.jpg"),
            to: String::from("/pics/webui_image/b.jpg"),
        })
    );
    assert_eq!(job.stage(), Stage::FallbackCopying);
    assert_eq!(
        job.advance(Event::Succeeded, &options, &markers),
        Some(Step::RemoveFile { file: String::from("/pics/b.jpg") })
    );
    assert_eq!(job.stage(), Stage::Removing);
    assert_eq!(
        job.advance(Event::Succeeded, &options, &markers),
        Some(Step::Done(Outcome::RoutedWebUI))
    );
}

#[test]
fn failed_removal_after_fallback_is_ignored() {
    let options = Options::standard();
    let markers = MarkerSet::standard();
    let mut job = started("/pics/a.png");
    job.advance(probe("generation_data"), &options, &markers);
    job.advance(Event::Succeeded, &options, &markers);
    job.advance(failed("cross-device link"), &options, &markers);
    job.advance(Event::Succeeded, &options, &markers);
    assert_eq!(
        job.advance(failed("busy"), &options, &markers),
        Some(Step::Done(Outcome::RoutedComfyUI))
    );
}

#[test]
fn failed_fallback_copy_is_an_error() {
    let options = Options::standard();
    let markers = MarkerSet::standard();
    let mut job = started("/pics/a.png");
    job.advance(probe("workflow"), &options, &markers);
    job.advance(Event::Succeeded, &options, &markers);
    job.advance(failed("cross-device link"), &options, &markers);
    assert_eq!(
        job.advance(failed("disk full"), &options, &markers),
        errored("Fallback copy failed: disk full")
    );
    assert_eq!(job.stage(), Stage::Finished);
}

#[test]
fn file_at_its_destination_is_left_alone_when_moving() {
    let options = Options {
        comfy_dir_name: String::from("."),
        webui_dir_name: String::from("webui_image"),
        copy: false,
    };
    let markers = MarkerSet::standard();
    let mut job = started("/pics/a.png");
    assert_eq!(
        job.advance(probe("workflow"), &options, &markers),
        Some(Step::CreateDir { dir: String::from("/pics/.") })
    );
    assert_eq!(
        job.advance(Event::Succeeded, &options, &markers),
        Some(Step::Done(Outcome::RoutedComfyUI))
    );
    assert_eq!(job.stage(), Stage::Finished);
}

#[test]
fn file_at_its_destination_is_left_alone_when_copying() {
    let options = Options {
        comfy_dir_name: String::from("comfyui_img"),
        webui_dir_name: String::new(),
        copy: true,
    };
    let markers = MarkerSet::standard();
    let mut job = started("/pics/b.jpg");
    job.advance(probe("Steps: 20"), &options, &markers);
    assert_eq!(
        job.advance(Event::Succeeded, &options, &markers),
        Some(Step::Done(Outcome::RoutedWebUI))
    );
}

#[test]
fn file_in_an_absolute_folder_named_as_its_own_is_left_alone() {
    let options = Options {
        comfy_dir_name: String::from("/pics/comfyui_img"),
        webui_dir_name: String::from("webui_image"),
        copy: false,
    };
    let markers = MarkerSet::standard();
    let mut job = started("/pics/comfyui_img/a.png");
    assert_eq!(
        job.advance(probe("workflow"), &options, &markers),
        Some(Step::CreateDir { dir: String::from("/pics/comfyui_img") })
    );
    assert_eq!(
        job.advance(Event::Succeeded, &options, &markers),
        Some(Step::Done(Outcome::RoutedComfyUI))
    );
}

#[test]
fn path_without_file_name_ends_after_the_folder() {
    let options = Options::standard();
    let markers = MarkerSet::standard();
    let mut job = started("/pics/..");
    assert_eq!(
        job.advance(probe("workflow"), &options, &markers),
        Some(Step::CreateDir { dir: String::from("/pics/comfyui_img") })
    );
    assert_eq!(
        job.advance(Event::Succeeded, &options, &markers),
        Some(Step::Done(Outcome::RoutedComfyUI))
    );
}

#[test]
fn event_that_is_not_awaited_changes_nothing() {
    let options = Options::standard();
    let markers = MarkerSet::standard();
    let mut job = started("/pics/a.png");
    assert_eq!(job.advance(Event::Succeeded, &options, &markers), None);
    assert_eq!(job.stage(), Stage::Probing);
    job.advance(probe("workflow"), &options, &markers);
    assert_eq!(job.advance(probe("workflow"), &options, &markers), None);
    assert_eq!(job.stage(), Stage::MakingDir);
    assert_eq!(job.target(), TargetType::ComfyUI);
}

#[test]
fn finished_job_takes_no_event() {
    let options = Options::standard();
    let markers = MarkerSet::standard();
    let mut job = started("/pics/a.png");
    job.advance(probe("nothing"), &options, &markers);
    assert_eq!(job.stage(), Stage::Finished);
    assert_eq!(job.advance(Event::Succeeded, &options, &markers), None);
    assert_eq!(job.advance(failed("x"), &options, &markers), None);
    assert_eq!(job.advance(probe("workflow"), &options, &markers), None);
    assert_eq!(job.stage(), Stage::Finished);
}

#[test]
fn every_job_ends_within_five_events() {
    let options = Options::standard();
    let markers = MarkerSet::standard();
    let mut job = started("/pics/a.png");
    let events = vec![
        probe("workflow"),
        Event::Succeeded,
        failed("cross-device link"),
        Event::Succeeded,
        Event::Succeeded,
    ];
    let mut done = 0;
    for event in events {
        if let Some(Step::Done(_)) = job.advance(event, &options, &markers) {
            done += 1;
        }
    }
    assert_eq!(done, 1);
    assert_eq!(job.stage(), Stage::Finished);
}

#[test]
fn folder_step_skips_a_file_of_no_known_generator() {
    assert_eq!(
        choose_folder_step(TargetType::Unclassified, Some(String::from("/pics/x"))),
        Step::Done(Outcome::Skipped)
    );
    assert_eq!(choose_folder_step(TargetType::Unclassified, None), Step::Done(Outcome::Skipped));
}

#[test]
fn folder_step_needs_a_directory() {
    assert_eq!(
        choose_folder_step(TargetType::ComfyUI, None),
        Step::Done(Outcome::Errored { message: String::from("Cannot get parent dir") })
    );
    assert_eq!(
        choose_folder_step(TargetType::WebUI, Some(String::from("/pics/webui_image"))),
        Step::CreateDir { dir: String::from("/pics/webui_image") }
    );
}

#[test]
fn transfer_step_copies_or_renames() {
    let file = String::from("/pics/a.png");
    let dest = String::from("/pics/comfyui_img/a.png");
    assert_eq!(
        choose_transfer_step(&file, TargetType::ComfyUI, Some((dest.clone(), false)), true),
        Step::CopyFile { from: file.clone(), to: dest.clone() }
    );
    assert_eq!(
        choose_transfer_step(&file, TargetType::ComfyUI, Some((dest.clone(), false)), false),
        Step::RenameFile { from: file.clone(), to: dest.clone() }
    );
}

#[test]
fn transfer_step_leaves_a_placed_file_alone() {
    let file = String::from("/pics/a.png");
    assert_eq!(
        choose_transfer_step(&file, TargetType::WebUI, Some((file.clone(), true)), false),
        Step::Done(Outcome::RoutedWebUI)
    );
    assert_eq!(
        choose_transfer_step(&file, TargetType::ComfyUI, Some((file.clone(), true)), true),
        Step::Done(Outcome::RoutedComfyUI)
    );
    assert_eq!(
        choose_transfer_step(&file, TargetType::ComfyUI, None, false),
        Step::Done(Outcome::RoutedComfyUI)
    );
}
