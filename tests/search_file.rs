use imagekit::search_file::join;
use imagekit::{Error, Filename, FormatOpts, RequestCriteria};

fn query_of(c: &RequestCriteria) -> String {
    let p = c.params();
    assert_eq!(p.len(), 1);
    assert_eq!(p[0].0, "searchQuery");
    p[0].1.clone()
}

#[test]
fn format_names() {
    assert_eq!(FormatOpts::Jpg.to_string(), "jpg");
    assert_eq!(FormatOpts::Woff2.to_string(), "woff2");
    assert_eq!(FormatOpts::M3u8.as_str(), "m3u8");
    assert_eq!(FormatOpts::Ico.as_str(), "ico");
}

#[test]
fn format_equality_query() {
    assert_eq!(query_of(&FormatOpts::eq(&FormatOpts::Jpg)), "format=\"jpg\"");
    assert_eq!(query_of(&FormatOpts::eq(&FormatOpts::Webm)), "format=\"webm\"");
}

#[test]
fn formats_in_range_query() {
    let c = FormatOpts::between(&[FormatOpts::Jpg, FormatOpts::Png, FormatOpts::Webp]).unwrap();
    assert_eq!(query_of(&c), "format IN ['jpg','png','webp']");
    let one = FormatOpts::between(&[FormatOpts::Gif]).unwrap();
    assert_eq!(query_of(&one), "format IN ['gif']");
}

#[test]
fn formats_not_in_range_query() {
    let c = FormatOpts::not_between(&[FormatOpts::Png, FormatOpts::Jpg]).unwrap();
    assert_eq!(query_of(&c), "format NOT IN ['png','jpg']");
}

#[test]
fn empty_format_set_is_refused() {
    assert!(matches!(FormatOpts::between(&[]), Err(Error::EmptyCriteria)));
    assert!(matches!(FormatOpts::not_between(&[]), Err(Error::EmptyCriteria)));
}

#[test]
fn join_quotes_in_order() {
    assert_eq!(join(&[FormatOpts::Svg, FormatOpts::Pdf], ","), "'svg','pdf'");
    assert_eq!(join(&[FormatOpts::Svg, FormatOpts::Pdf], " | "), "'svg' | 'pdf'");
    assert_eq!(join(&[], ","), "");
}

#[test]
fn filename_equality_query() {
    let name = Filename::new("ferris.jpeg");
    assert_eq!(name.as_str(), "ferris.jpeg");
    assert_eq!(query_of(&Filename::eq(&name)), "name=\"ferris.jpeg\"");
}

#[test]
fn request_criteria_keeps_parameters() {
    let pairs = vec![
        ("a".to_string(), "1".to_string()),
        ("b".to_string(), "two".to_string()),
    ];
    let c = RequestCriteria::new(&pairs);
    assert_eq!(c.params(), &pairs);
}

#[test]
fn request_url_carries_encoded_query() {
    let url = FormatOpts::eq(&FormatOpts::Jpg).url().unwrap();
    assert_eq!(
        url,
        "https://api.imagekit.io/v1/files?searchQuery=format%3D%22jpg%22"
    );
    let range = FormatOpts::between(&[FormatOpts::Jpg, FormatOpts::Png]).unwrap();
    assert_eq!(
        range.url().unwrap(),
        "https://api.imagekit.io/v1/files?searchQuery=format+IN+%5B%27jpg%27%2C%27png%27%5D"
    );
}
