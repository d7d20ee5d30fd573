use crosspub::about::About;
use crosspub::args::Args;
use crosspub::dates::parse_date;
use crosspub::post::Post;
use crosspub::topic::Topic;

fn lines(v: &[&str]) -> Vec<String> {
    v.iter().map(|s| s.to_string()).collect()
}

#[test]
fn about_page_renders_both_bodies() {
    let src = lines(&["# About", "", "Some text about this site here"]);
    let about = About::from_lines(&src);
    assert_eq!(about.html_content, "<h1>About</h1>\n<p>Some text about this site here</p>\n");
    assert_eq!(about.gemini_content, "# About\n\nSome text about this site here");
}

#[test]
fn default_about_is_empty() {
    let about = About::default();
    assert_eq!(about.html_content, "");
    assert_eq!(about.gemini_content, "");
}

#[test]
fn post_filename_joins_compact_date_and_slug() {
    let date = parse_date("2023-01-02").unwrap();
    let post = Post::from_parts("A Post".to_string(), "a-post", date, &lines(&["body text here"]));
    assert_eq!(post.title, "A Post");
    assert_eq!(post.filename, "20230102_a-post");
    assert_eq!(post.date, date);
    assert_eq!(post.html_content, "<p>body text here</p>\n");
    assert_eq!(post.gemini_content, "body text here");
}

#[test]
fn default_post_is_empty_with_placeholder_date() {
    let post = Post::default();
    assert_eq!(post.title, "");
    assert_eq!(post.filename, "");
    assert_eq!(post.date.year, 1980);
    assert_eq!(post.html_content, "");
    assert_eq!(post.gemini_content, "");
}

#[test]
fn default_args_ask_for_nothing() {
    let args = Args::default();
    assert!(args.config.is_none());
    assert!(args.dir.is_none());
    assert!(!args.init);
}

#[test]
fn topic_uses_separate_html_and_gemini_slices() {
    let all = lines(&["extra gemtext line xx", "# Topic", "body line for topic x"]);
    let topic = Topic::from_parts(
        "Topic".to_string(),
        "topic".to_string(),
        &all[1..],
        &all[0..],
    );
    assert_eq!(topic.title, "Topic");
    assert_eq!(topic.filename, "topic");
    assert_eq!(topic.html_content, "<h1>Topic</h1>\n<p>body line for topic x</p>\n");
    assert_eq!(
        topic.gemini_content,
        "extra gemtext line xx\n# Topic\nbody line for topic x"
    );
}
