use poprako::prompt::{SectionContent, SystemPrompt, SystemPromptSection, SystemPromptSubSection};

fn sub(title: &str, body: &str) -> SystemPromptSubSection {
    SystemPromptSubSection::new(title.into(), body.into())
}

fn body_section(title: &str, body: &str) -> SystemPromptSection {
    SystemPromptSection::new(title.into(), SectionContent::Body(body.into()))
}

fn group_section(title: &str, subs: Vec<SystemPromptSubSection>) -> SystemPromptSection {
    SystemPromptSection::new(title.into(), SectionContent::SubSections(subs))
}

#[test]
fn validate_sub_rejects_empty_title() {
    assert!(sub("  ", "body").validate().is_err());
}

#[test]
fn validate_sub_rejects_empty_body() {
    assert!(sub("title", "  ").validate().is_err());
}

#[test]
fn validate_sub_rejects_hash_prefix() {
    let err = sub("# Bad", "body").validate().unwrap_err().message();
    assert!(err.contains("'#'"));
}

#[test]
fn validate_sub_rejects_multiline_title() {
    assert!(sub("A\nB", "body").validate().is_err());
}

#[test]
fn validate_sub_accepts_valid() {
    assert!(sub("Valid", "Content.").validate().is_ok());
}

#[test]
fn validate_section_rejects_empty_title() {
    let s = body_section("  ", "body");
    assert!(s.validate().is_err());
}

#[test]
fn validate_section_rejects_empty_body() {
    let s = body_section("Title", "  ");
    assert!(s.validate().is_err());
}

#[test]
fn validate_section_propagates_sub_error() {
    let s = group_section("Group", vec![sub("ok", "body"), sub("", "empty")]);
    assert!(s.validate().is_err());
}

#[test]
fn validate_section_accepts_empty_subs() {
    assert!(group_section("Group", vec![]).validate().is_ok());
}

#[test]
fn validate_section_accepts_valid_body() {
    assert!(body_section("Title", "Some body.").validate().is_ok());
}

#[test]
fn empty_sections_renders_title_only() {
    let prompt = SystemPrompt::new("白杨子指导".into(), vec![]);
    let r = prompt.render();
    assert_eq!(r, "# 白杨子指导\n");
}

#[test]
fn body_sections_render_as_h2() {
    let prompt = SystemPrompt::new(
        "白杨子指导".into(),
        vec![
            body_section("人格", "You are a helpful bot."),
            body_section("场景", "You are in a chat room."),
        ],
    );
    let r = prompt.render();

    assert!(r.starts_with("# 白杨子指导\n"));
    let renge_pos = r.find("## 人格").unwrap();
    let scene_pos = r.find("## 场景").unwrap();
    assert!(renge_pos < scene_pos);

    assert!(r.contains("You are a helpful bot."));
    assert!(r.contains("You are in a chat room."));
}

#[test]
fn group_section_renders_h3_subs() {
    let prompt = SystemPrompt::new(
        "白杨子指导".into(),
        vec![
            body_section("人格", "Bot persona."),
            group_section(
                "插件说明",
                vec![
                    sub("灵光一闪", "Inspiration plugin."),
                    sub("记忆碎片", "Memory shard plugin."),
                ],
            ),
        ],
    );
    let r = prompt.render();

    let h1 = r.find("# 白杨子指导").unwrap();
    let h2_renge = r.find("## 人格").unwrap();
    let h2_plugin = r.find("## 插件说明").unwrap();
    let h3_ling = r.find("### 灵光一闪").unwrap();
    let h3_jiyi = r.find("### 记忆碎片").unwrap();

    assert!(h1 < h2_renge);
    assert!(h2_renge < h2_plugin);
    assert!(h2_plugin < h3_ling);
    assert!(h3_ling < h3_jiyi);

    assert!(r.contains("Inspiration plugin."));
    assert!(r.contains("Memory shard plugin."));
}

#[test]
fn trailing_newline_normalized() {
    let prompt = SystemPrompt::new("T".into(), vec![body_section("S", "b")]);
    let r = prompt.render();
    assert!(r.ends_with('\n'));
    assert!(!r.ends_with("\n\n"));
}

#[test]
fn render_exact_layout_of_body_and_group() {
    let prompt = SystemPrompt::new(
        "T".into(),
        vec![body_section("A", "a body"), group_section("G", vec![sub("S", "s body")])],
    );
    assert_eq!(prompt.render(), "# T\n\n## A\n\na body\n\n## G\n\n### S\n\ns body\n");
}

#[test]
fn validate_sub_error_messages_are_exact() {
    assert_eq!(sub("  ", "b").validate().unwrap_err().message(), "system prompt sub-section title cannot be empty");
}

#[test]
fn rendering_starts_with_the_title_line_and_ends_with_one_newline() {
    let blank = SystemPrompt::new("   ".to_string(), vec![]);
    assert_eq!(blank.render(), "# \n");
    let p = SystemPrompt::new(
        "  Agent \n".to_string(),
        vec![SystemPromptSection::new("Empty".to_string(), SectionContent::Body("\n\n".to_string()))],
    );
    let out = p.render();
    assert!(out.starts_with("# Agent\n"));
    assert!(out.ends_with('\n'));
    assert!(!out.ends_with("\n\n"));
}
