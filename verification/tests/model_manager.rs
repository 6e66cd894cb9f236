use open_clip_inference::error::ClipError;
use open_clip_inference::model_manager::{
    default_base_folder, local_model_dir, model_file_names, verify_model_dir, DownloadStep,
    ModelDownload, MODEL_FILE_COUNT,
};

const EXPECTED_FILES: [&str; 9] = [
    "model_config.json",
    "open_clip_config.json",
    "special_tokens_map.json",
    "text.onnx",
    "tokenizer.json",
    "tokenizer_config.json",
    "visual.onnx",
    "text.onnx.data",
    "visual.onnx.data",
];

#[test]
fn model_files_are_listed_in_download_order() {
    let names = model_file_names();
    assert_eq!(names.len(), MODEL_FILE_COUNT);
    assert_eq!(names, EXPECTED_FILES.to_vec());
}

#[test]
fn missing_directory_is_reported_first() {
    let present = [false; 9];
    let r = verify_model_dir("/models/clip", false, &present);
    assert_eq!(r, Err(ClipError::ModelFolderNotFound("/models/clip".to_string())));
    let all = [true; 9];
    let r = verify_model_dir("/models/clip", false, &all);
    assert_eq!(r, Err(ClipError::ModelFolderNotFound("/models/clip".to_string())));
}

#[test]
fn complete_directory_is_accepted() {
    let present = [true; 9];
    assert_eq!(verify_model_dir("/models/clip", true, &present), Ok(()));
}

#[test]
fn first_missing_file_is_reported() {
    let mut present = [true; 9];
    present[3] = false;
    present[7] = false;
    let r = verify_model_dir("m", true, &present);
    assert_eq!(
        r,
        Err(ClipError::MissingModelFile { model_dir: "m".to_string(), file: "text.onnx".to_string() })
    );
    let mut present = [true; 9];
    present[8] = false;
    let r = verify_model_dir("m", true, &present);
    assert_eq!(
        r,
        Err(ClipError::MissingModelFile { model_dir: "m".to_string(), file: "visual.onnx.data".to_string() })
    );
    let present = [false; 9];
    let r = verify_model_dir("m", true, &present);
    assert_eq!(
        r,
        Err(ClipError::MissingModelFile { model_dir: "m".to_string(), file: "model_config.json".to_string() })
    );
}

#[test]
fn default_base_folder_without_home_is_relative_cache() {
    assert_eq!(default_base_folder(None), ".open_clip_cache");
}

#[test]
fn default_base_folder_is_under_home() {
    let sep = std::path::MAIN_SEPARATOR;
    assert_eq!(default_base_folder(Some("/home/ada")), format!("/home/ada{sep}.cache/open_clip_rs"));
    assert_eq!(default_base_folder(Some("/home/ada/")), "/home/ada/.cache/open_clip_rs");
}

#[test]
fn local_model_dir_joins_model_id() {
    let sep = std::path::MAIN_SEPARATOR;
    assert_eq!(local_model_dir(Some("/data"), None, "ViT-B-32"), format!("/data{sep}ViT-B-32"));
    assert_eq!(local_model_dir(None, None, "ViT-B-32"), format!(".open_clip_cache{sep}ViT-B-32"));
    assert_eq!(
        local_model_dir(None, Some("/home/ada"), "m"),
        format!("/home/ada{sep}.cache/open_clip_rs{sep}m")
    );
}

#[test]
fn repository_id_is_split_at_first_slash() {
    let d: ModelDownload<String> = ModelDownload::new("RuteNL/MobileCLIP2-S2-OpenCLIP-ONNX");
    assert_eq!(d.owner(), "RuteNL");
    assert_eq!(d.name(), "MobileCLIP2-S2-OpenCLIP-ONNX");
    let d: ModelDownload<String> = ModelDownload::new("gpt2");
    assert_eq!(d.owner(), "");
    assert_eq!(d.name(), "gpt2");
    let d: ModelDownload<String> = ModelDownload::new("owner/sub/name");
    assert_eq!(d.owner(), "owner");
    assert_eq!(d.name(), "sub/name");
}

fn run_download(model_id: &str, parents: &[Option<&str>]) -> (Vec<String>, Result<String, ClipError>) {
    let mut d: ModelDownload<String> = ModelDownload::new(model_id);
    let mut fetched = Vec::new();
    let mut k = 0;
    while let DownloadStep::Fetch(file) = d.step() {
        fetched.push(file);
        d.record(parents[k].map(|p| p.to_string()));
        k += 1;
    }
    (fetched, d.finish())
}

#[test]
fn download_fetches_every_file_in_order() {
    let parents = [Some("/cache/snap"); 9];
    let (fetched, r) = run_download("a/b", &parents);
    assert_eq!(fetched, EXPECTED_FILES.iter().map(|s| s.to_string()).collect::<Vec<_>>());
    assert_eq!(r, Ok("/cache/snap".to_string()));
}

#[test]
fn download_keeps_first_known_directory() {
    let parents = [None, None, Some("/first"), Some("/second"), None, None, None, None, Some("/last")];
    let (_, r) = run_download("a/b", &parents);
    assert_eq!(r, Ok("/first".to_string()));
}

#[test]
fn download_without_directory_is_an_error() {
    let parents = [None; 9];
    let (fetched, r) = run_download("RuteNL/MobileCLIP2-S2-OpenCLIP-ONNX", &parents);
    assert_eq!(fetched.len(), 9);
    assert_eq!(
        r,
        Err(ClipError::HfHub(
            "Could not determine model directory for 'RuteNL/MobileCLIP2-S2-OpenCLIP-ONNX'".to_string()
        ))
    );
}

#[test]
fn failed_download_ends_the_download_with_its_error() {
    let mut d: ModelDownload<String> = ModelDownload::new("a/b");
    assert_eq!(d.step(), DownloadStep::Fetch("model_config.json".to_string()));
    d.record(Some("/cache/snap".to_string()));
    assert_eq!(d.step(), DownloadStep::Fetch("open_clip_config.json".to_string()));
    d.record_failure("404 Not Found".to_string());
    assert_eq!(d.step(), DownloadStep::Finished);
    assert_eq!(d.finish(), Err(ClipError::HfHub("404 Not Found".to_string())));
}
