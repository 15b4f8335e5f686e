use blog_ingest::limits::{MAX_TEXT_SIZE, MAX_USERNAME_SIZE};
use blog_ingest::models::{BlogPost, CreateBlogPostDTO, FeedDTO, Image, ImageType, NewPost};
use blog_ingest::download::download_admissible;

fn a_date() -> chrono::NaiveDate {
    chrono::NaiveDate::from_ymd_opt(2023, 11, 2).unwrap()
}

#[test]
fn image_type_from_number() {
    assert_eq!(ImageType::from(0), ImageType::Avatar);
    assert_eq!(ImageType::from(1), ImageType::BlogPost);
    assert_eq!(ImageType::from(2), ImageType::BlogPost);
    assert_eq!(ImageType::from(-1), ImageType::BlogPost);
    assert_eq!(ImageType::from(i32::MAX), ImageType::BlogPost);
}

#[test]
fn image_type_into_number() {
    let avatar: i32 = ImageType::Avatar.into();
    let blogpost: i32 = ImageType::BlogPost.into();
    assert_eq!(avatar, 0);
    assert_eq!(blogpost, 1);
    assert_eq!(ImageType::from(avatar), ImageType::Avatar);
    assert_eq!(ImageType::from(blogpost), ImageType::BlogPost);
}

#[test]
fn image_holds_its_fields() {
    let image = Image {
        id: 4,
        image_type: ImageType::from(0),
        path: "./images/x".to_string(),
        blogpost_id: 9,
    };
    assert_eq!(image.image_type, ImageType::Avatar);
    assert_eq!(image.clone(), image);
}

#[test]
fn limits_of_text_and_username() {
    assert_eq!(MAX_TEXT_SIZE, 2000);
    assert_eq!(MAX_USERNAME_SIZE, 128);
    let at = CreateBlogPostDTO { text: "t".repeat(2000), username: "u".repeat(128), avatar: None };
    assert!(at.fits_limits());
    let long_text =
        CreateBlogPostDTO { text: "t".repeat(2001), username: "u".to_string(), avatar: None };
    assert!(!long_text.fits_limits());
    let long_name =
        CreateBlogPostDTO { text: "t".to_string(), username: "u".repeat(129), avatar: None };
    assert!(!long_name.fits_limits());
    let wide = CreateBlogPostDTO { text: "€".repeat(667), username: String::new(), avatar: None };
    assert!(!wide.fits_limits());
    let wide = CreateBlogPostDTO { text: "€".repeat(666), username: String::new(), avatar: None };
    assert!(wide.fits_limits());
}

#[test]
fn new_post_takes_over_every_field() {
    let dto = CreateBlogPostDTO {
        text: "Hello!".to_string(),
        username: "admin".to_string(),
        avatar: Some("https://example.org/a.png".to_string()),
    };
    let post = NewPost::from_create_blog_post_dto(
        dto,
        a_date(),
        Some("ava".to_string()),
        Some("img".to_string()),
    );
    assert_eq!(
        post,
        NewPost {
            text: "Hello!".to_string(),
            username: "admin".to_string(),
            date_of_publication: a_date(),
            avatar: Some("ava".to_string()),
            post_image: Some("img".to_string()),
        }
    );
}

#[test]
fn feed_keeps_the_order_of_the_posts() {
    let post = |id: i32| BlogPost {
        id,
        text: format!("post {}", id),
        username: "admin".to_string(),
        date_of_publication: a_date(),
        avatar: None,
        post_image: None,
    };
    let feed = FeedDTO::new(vec![post(3), post(1), post(2)]);
    assert_eq!(feed.blogposts.iter().map(|p| p.id).collect::<Vec<i32>>(), vec![3, 1, 2]);
    assert!(FeedDTO::new(Vec::new()).blogposts.is_empty());
}

#[test]
fn download_is_admitted_by_status_and_length() {
    assert!(download_admissible(200, None));
    assert!(download_admissible(200, Some(0)));
    assert!(download_admissible(200, Some(2_097_152)));
    assert!(!download_admissible(200, Some(2_097_153)));
    assert!(!download_admissible(404, Some(10)));
    assert!(!download_admissible(201, None));
    assert!(!download_admissible(500, None));
}
