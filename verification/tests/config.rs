use airtype_lib::models::{
    hebrew_model_path, hebrew_model_size_mb, model_filename, model_path, model_size_mb, model_url,
    HEBREW_MODEL_FILENAME,
};
use airtype_lib::paths::{
    config_dir, config_dir_in, history_path, join_path, models_dir, settings_path, APP_NAME,
};
use airtype_lib::settings::{
    EnglishEndpointType, HotkeyMode, IndicatorAlign, Language, ModelSize, Settings,
    DEFAULT_INDICATOR_BOTTOM_OFFSET_BITS,
};

#[test]
fn test_model_filename() {
    assert_eq!(model_filename(ModelSize::Tiny), "ggml-tiny.bin");
    assert_eq!(model_filename(ModelSize::Base), "ggml-base.bin");
    assert_eq!(model_filename(ModelSize::Small), "ggml-small.bin");
    assert_eq!(model_filename(ModelSize::Medium), "ggml-medium.bin");
}

#[test]
fn test_model_url() {
    let url = model_url(ModelSize::Base);
    assert!(url.contains("ggml-base.bin"));
    assert!(url.starts_with("https://"));
}

#[test]
fn model_url_is_under_the_download_base() {
    assert_eq!(
        model_url(ModelSize::Large),
        "https://huggingface.co/ggerganov/whisper.cpp/resolve/main/ggml-large-v3.bin"
    );
}

#[test]
fn test_model_path() {
    let path = model_path(ModelSize::Base);
    assert!(path.contains("ggml-base.bin"));
}

#[test]
fn test_hebrew_model_path() {
    let path = hebrew_model_path();
    assert!(path.contains("ggml-ivrit"));
    assert!(path.ends_with(HEBREW_MODEL_FILENAME));
}

#[test]
fn model_files_live_in_the_models_dir() {
    let dir = models_dir();
    let path = model_path(ModelSize::Small);
    assert!(path.starts_with(&dir));
    assert!(path.ends_with(&model_filename(ModelSize::Small)));
    assert_eq!(path.len(), dir.len() + 1 + model_filename(ModelSize::Small).len());
    let hebrew = hebrew_model_path();
    assert!(hebrew.starts_with(&dir));
    assert_eq!(hebrew.len(), dir.len() + 1 + HEBREW_MODEL_FILENAME.len());
    assert!(config_dir().len() > APP_NAME.len());
}

#[test]
fn model_sizes() {
    assert_eq!(model_size_mb(ModelSize::Tiny), 75);
    assert_eq!(model_size_mb(ModelSize::Medium), 1500);
    assert_eq!(hebrew_model_size_mb(), 1625);
}

#[test]
fn test_config_dir_exists() {
    let config_dir = config_dir();
    assert!(config_dir.ends_with(APP_NAME));
}

#[test]
fn test_models_dir() {
    let models_dir = models_dir();
    assert!(models_dir.ends_with("models"));
    assert!(models_dir.starts_with(&config_dir()));
}

#[test]
fn config_files_live_in_the_config_dir() {
    assert!(settings_path().ends_with("settings.json"));
    assert!(history_path().ends_with("history.json"));
    assert!(settings_path().starts_with(&config_dir()));
}

#[test]
fn join_path_puts_one_separator_between() {
    assert_eq!(join_path("/home/u/.config", "airtype", '/'), "/home/u/.config/airtype");
    assert_eq!(join_path("/home/u/.config/", "airtype", '/'), "/home/u/.config/airtype");
    assert_eq!(join_path("C:\\Users\\u", "airtype", '\\'), "C:\\Users\\u\\airtype");
    assert_eq!(join_path("", "airtype", '/'), "airtype");
    assert_eq!(config_dir_in(None, '/'), "./airtype");
    assert_eq!(config_dir_in(Some("/etc"), '/'), "/etc/airtype");
}

#[test]
fn test_default_settings() {
    let settings = Settings::default();
    assert_eq!(settings.hotkey_english, "Ctrl+Shift+E");
    assert_eq!(settings.hotkey_hebrew, "Ctrl+Shift+H");
    assert_eq!(settings.hotkey_mode, HotkeyMode::Hold);
    assert!(!settings.start_minimized);
    assert!(!settings.start_on_login);
    assert_eq!(settings.inject_delay_ms, 10);
    assert_eq!(settings.english_endpoint_type, EnglishEndpointType::SharedRunPod);
}

#[test]
fn default_settings_indicator_and_credentials() {
    let settings = Settings::default();
    assert_eq!(f64::from_bits(settings.indicator_bottom_offset_bits), 80.0);
    assert_eq!(settings.indicator_bottom_offset_bits, DEFAULT_INDICATOR_BOTTOM_OFFSET_BITS);
    assert_eq!(f64::from_bits(settings.indicator_x_offset_bits), 0.0);
    assert_eq!(settings.indicator_align, IndicatorAlign::Center);
    assert_eq!(settings.indicator_width, 160);
    assert_eq!(settings.indicator_height, 48);
    assert!(settings.auto_check_updates);
    assert!(settings.runpod_api_key.is_none());
    assert!(settings.english_openai_api_key.is_none());
}

#[test]
fn settings_clone_keeps_every_field() {
    let mut settings = Settings::default();
    settings.runpod_api_key = Some("key".to_string());
    settings.hotkey_mode = HotkeyMode::Toggle;
    let copy = settings.clone();
    assert_eq!(copy.runpod_api_key.as_deref(), Some("key"));
    assert_eq!(copy.hotkey_mode, HotkeyMode::Toggle);
    assert_eq!(copy.hotkey_english, settings.hotkey_english);
}

#[test]
fn enum_defaults() {
    assert_eq!(HotkeyMode::default(), HotkeyMode::Hold);
    assert_eq!(Language::default(), Language::English);
    assert_eq!(IndicatorAlign::default(), IndicatorAlign::Center);
    assert_eq!(EnglishEndpointType::default(), EnglishEndpointType::SharedRunPod);
}
