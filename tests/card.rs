use daily_bot::{
    day_label, get_poetry, holiday_key, image_file_path, note_description,
    note_title, poetry_at, push_saved, today_note_prompt, upload_url, HolidayInfo, HolidayResult,
    MessageInfo, Poetry, SavedResult, UploadAlreadyHave, Weekday,
};

fn national_day() -> HolidayInfo {
    HolidayInfo {
        holiday: true,
        name: "国庆节".to_string(),
        wage: 3,
        date: "2023-10-01".to_string(),
        rest: 1,
    }
}

fn calendar() -> HolidayResult {
    HolidayResult {
        code: 0,
        holiday: vec![
            ("09-29".to_string(), HolidayInfo {
                holiday: true,
                name: "中秋节".to_string(),
                wage: 3,
                date: "2023-09-29".to_string(),
                rest: 1,
            }),
            ("10-01".to_string(), national_day()),
        ],
    }
}

#[test]
fn wechat_it_works() {
    let title = format!("{}天气 {} , 温度 {}°C", "无锡", "多云", "27");
    let description = format!("起床啦，喝杯咖啡，背个单词，去上班。\n今日诗句\n{}", "我是诗句");
    let message = MessageInfo::new(
        title.clone(),
        description.clone(),
        "https://vip2.loli.io/2023/08/02/FZS59UEMp7BqoTW.webp".to_string(),
    );
    assert_eq!(message.msgtype, "news");
    assert_eq!(message.news.articles.len(), 1);
    let article = &message.news.articles[0];
    assert_eq!(article.title, "无锡天气 多云 , 温度 27°C");
    assert_eq!(article.description, description);
    assert_eq!(article.url, "https://www.yuque.com/u68186/owc2wh/uxiqkm");
    assert_eq!(article.picurl, "https://vip2.loli.io/2023/08/02/FZS59UEMp7BqoTW.webp");
}

#[test]
fn weekday_labels() {
    let all = [
        (Weekday::Mon, "周一"),
        (Weekday::Tue, "周二"),
        (Weekday::Wed, "周三"),
        (Weekday::Thu, "周四"),
        (Weekday::Fri, "周五"),
        (Weekday::Sat, "周六"),
        (Weekday::Sun, "周日"),
    ];
    for (d, label) in all {
        assert_eq!(d.label(), label);
    }
}

#[test]
fn day_label_prefers_holiday_name() {
    let h = national_day();
    assert_eq!(day_label(Some(&h), Weekday::Sun), "国庆节");
    assert_eq!(day_label(None, Weekday::Fri), "周五");
}

#[test]
fn title_and_description_layout() {
    assert_eq!(note_title("周一", "晴", "25"), "周一 晴 25°C");
    assert_eq!(
        note_description("早安", "床前明月光", "李白"),
        "早安\n\n今日诗句\n床前明月光\n---李白"
    );
}

#[test]
fn note_prompt_ends_with_the_day() {
    let p = today_note_prompt("周一，天气 晴，温度 25 摄氏度");
    assert!(p.starts_with("我告诉你今天的星期和天气"));
    assert!(p.ends_with("今天是周一，天气 晴，温度 25 摄氏度"));
}

#[test]
fn holiday_keys_are_zero_padded() {
    assert_eq!(holiday_key(10, 1), "10-01");
    assert_eq!(holiday_key(8, 15), "08-15");
    assert_eq!(holiday_key(12, 31), "12-31");
    assert_eq!(holiday_key(1, 9), "01-09");
}

#[test]
fn get_holiday_info() {
    let cal = calendar();
    let h = daily_bot::get_holiday_info(&cal, 10, 1).unwrap();
    assert!(h.holiday);
    assert_eq!(h, &national_day());
}

#[test]
fn is_not_holiday() {
    let cal = calendar();
    assert_eq!(daily_bot::get_holiday_info(&cal, 8, 15), None);
    let empty = HolidayResult { code: 0, holiday: vec![] };
    assert_eq!(daily_bot::get_holiday_info(&empty, 10, 1), None);
}

#[test]
fn test_save() {
    let first = SavedResult {
        poetry: "a".to_string(),
        author: "b".to_string(),
        img_url: "c".to_string(),
    };
    let saved = push_saved(vec![], "Roses are red, violets are blue", "author", "https://example.com/image.png");
    assert_eq!(
        saved,
        vec![SavedResult {
            poetry: "Roses are red, violets are blue".to_string(),
            author: "author".to_string(),
            img_url: "https://example.com/image.png".to_string(),
        }]
    );
    let saved = push_saved(vec![first.clone()], "x", "y", "z");
    assert_eq!(saved.len(), 2);
    assert_eq!(saved[0], first);
    assert_eq!(saved[1].poetry, "x");
}

#[test]
fn image_path_takes_last_segment() {
    assert_eq!(image_file_path("https://example.com/a/b.png"), "./images/b.png");
    assert_eq!(image_file_path("image.png"), "./images/image.png");
    assert_eq!(image_file_path("https://example.com/dir/"), "./images/");
    assert_eq!(image_file_path(""), "./images/");
}

#[test]
fn upload_url_tries_fresh_upload_first() {
    let again = UploadAlreadyHave {
        success: false,
        code: "image_repeated".to_string(),
        message: "Image upload repeated limit".to_string(),
        images: "https://s2.loli.net/old.webp".to_string(),
        request_id: "R1".to_string(),
    };
    assert_eq!(
        upload_url(Some("https://s2.loli.net/new.webp".to_string()), Some(again.clone())),
        Some("https://s2.loli.net/new.webp".to_string())
    );
    assert_eq!(upload_url(None, Some(again)), Some("https://s2.loli.net/old.webp".to_string()));
    assert_eq!(upload_url(None, None), None);
}

#[test]
fn poetry_picks() {
    let poems = vec![
        Poetry { poetry: "p1".to_string(), author: "a1".to_string(), img_url: "i1".to_string() },
        Poetry { poetry: "p2".to_string(), author: "a2".to_string(), img_url: "i2".to_string() },
    ];
    assert_eq!(poetry_at(&poems, 1), Some(&poems[1]));
    assert_eq!(poetry_at(&poems, 2), None);
    assert_eq!(get_poetry(&vec![]), None);
    for _ in 0..20 {
        let p = get_poetry(&poems).unwrap();
        assert!(p == &poems[0] || p == &poems[1]);
    }
    let one = vec![poems[0].clone()];
    assert_eq!(get_poetry(&one), Some(&poems[0]));
}

#[test]
fn picture_is_reencoded_as_jpeg() {
    let img = image::DynamicImage::ImageRgb8(image::RgbImage::from_pixel(4, 3, image::Rgb([200, 30, 90])));
    let mut png: Vec<u8> = Vec::new();
    img.write_to(&mut std::io::Cursor::new(&mut png), image::ImageOutputFormat::Png).unwrap();
    let jpeg = daily_bot::process_image(png.clone()).unwrap();
    assert_ne!(jpeg, png);
    assert_eq!(&jpeg[0..2], &[0xFF, 0xD8]);
    let back = image::load_from_memory(&jpeg).unwrap();
    assert_eq!((back.width(), back.height()), (4, 3));
}

#[test]
fn garbage_is_not_a_picture() {
    let r = daily_bot::process_image(b"definitely not an image".to_vec());
    assert!(matches!(r, Err(daily_bot::PictureError::Unreadable(_))));
}
