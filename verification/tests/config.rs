use ssg::config::Config;

#[test]
fn default_config() {
    let config = Config::default();
    assert_eq!(config.input_dir, "content");
    assert_eq!(config.template_dir, "templates");
    assert_eq!(config.out_dir, "public");
    assert_eq!(config.html_template, "base.html");
    assert!(!config.serve);
    assert_eq!(config.port, "8080");
}

#[test]
fn source_pattern_lists_markdown_of_one_directory() {
    let config = Config::default();
    assert_eq!(config.source_pattern(), "content/*.md");
}

#[test]
fn template_pattern_lists_html_templates() {
    let config = Config::default();
    assert_eq!(config.template_pattern(), "templates/*.html");
}

#[test]
fn patterns_follow_the_configured_directories() {
    let config = Config {
        input_dir: "docs/src".to_string(),
        template_dir: "theme".to_string(),
        ..Config::default()
    };
    assert_eq!(config.source_pattern(), "docs/src/*.md");
    assert_eq!(config.template_pattern(), "theme/*.html");
}
