use sinner_portraits::images::{
    plan_from_lines, render_plan, text_draws, ImageError, Ink, RenderPlan, RenderRequest,
    IMAGE_SIZE, LINE_HEIGHT, NAME_TOP,
};

fn request(rarity: u8, identity: &str, name: &str) -> RenderRequest {
    RenderRequest {
        input_path: "root/input/yisang/id/seven.png".to_string(),
        output_path: "root/output/id/01_yisang_01_seven.png".to_string(),
        overlay_path: "root/asset/".to_string(),
        rarity,
        identity: identity.to_string(),
        name: name.to_string(),
    }
}

fn draws(plan: &RenderPlan) -> Vec<(String, i32, i32, Ink)> {
    plan.texts.iter().map(|d| (d.text.clone(), d.x, d.y, d.ink)).collect()
}

fn title_lines(plan: &RenderPlan) -> Vec<String> {
    plan.texts.iter().filter(|d| d.ink == Ink::Text && d.x == 22).map(|d| d.text.clone()).collect()
}

#[test]
fn yi_sang_seven_associates() {
    let plan = render_plan(&request(3, "W Corp.", "Yi Sang")).unwrap();
    assert_eq!(plan.base.path, "root/input/yisang/id/seven.png");
    assert_eq!(plan.layers.len(), 2);
    assert_eq!(plan.layers[0].path, "root/asset/gradient_small.png");
    assert_eq!(plan.layers[1].path, "root/asset/000.png");
    assert_eq!(
        draws(&plan),
        vec![
            ("W Corp.".to_string(), 27, 19, Ink::Shadow),
            ("Yi Sang".to_string(), 76, 475, Ink::Shadow),
            ("W Corp.".to_string(), 22, 14, Ink::Text),
            ("Yi Sang".to_string(), 71, 470, Ink::Text),
        ]
    );
}

#[test]
fn missing_files_name_their_paths() {
    let plan = render_plan(&request(3, "W Corp.", "Yi Sang")).unwrap();
    assert_eq!(
        plan.base.missing,
        ImageError::IdentityNotFound("root/input/yisang/id/seven.png".to_string())
    );
    assert_eq!(
        plan.layers[0].missing,
        ImageError::TextShadowNotFound("root/asset/gradient_small.png".to_string())
    );
    assert_eq!(
        plan.layers[1].missing,
        ImageError::RarityNotFound("root/asset/000.png".to_string())
    );
}

#[test]
fn bad_rarity_is_rejected() {
    assert_eq!(
        render_plan(&request(5, "W Corp.", "Yi Sang")).unwrap_err(),
        ImageError::BadRarityLevel(5)
    );
    assert_eq!(
        render_plan(&request(0, "W Corp.", "Yi Sang")).unwrap_err(),
        ImageError::BadRarityLevel(0)
    );
}

#[test]
fn three_line_title_is_too_long() {
    assert_eq!(
        render_plan(&request(1, "aaaa bbbb cccc dddd eeee ffff gggg", "Yi Sang")).unwrap_err(),
        ImageError::TextTooLong
    );
}

#[test]
fn too_long_is_reported_before_bad_rarity() {
    assert_eq!(
        render_plan(&request(9, "aaaa bbbb cccc dddd eeee ffff gggg", "Yi Sang")).unwrap_err(),
        ImageError::TextTooLong
    );
}

#[test]
fn two_line_title_takes_large_gradient() {
    let plan = render_plan(&request(2, "The Seven Associates", "Yi Sang")).unwrap();
    assert_eq!(plan.layers[0].path, "root/asset/gradient_large.png");
    assert_eq!(plan.layers[1].path, "root/asset/00.png");
    assert_eq!(title_lines(&plan), vec!["The Seven".to_string(), "Associates".to_string()]);
    assert_eq!(plan.texts[0].y, 19);
    assert_eq!(plan.texts[1].y, 19 + 75);
}

#[test]
fn short_title_stays_one_line() {
    for title in ["W Corp.", "LCB Sinner", "a", "exactly 14 chr"] {
        let plan = render_plan(&request(1, title, "Yi Sang")).unwrap();
        assert_eq!(title_lines(&plan), vec![title.to_string()]);
        assert_eq!(plan.layers[0].path, "root/asset/gradient_small.png");
    }
}

#[test]
fn wrapping_keeps_words_whole_and_in_order() {
    let title = "Blade Lineage Salsu";
    let plan = render_plan(&request(1, title, "Yi Sang")).unwrap();
    let lines = title_lines(&plan);
    assert_eq!(lines.len(), 2);
    let words: Vec<&str> = lines.iter().flat_map(|l| l.split_whitespace()).collect();
    assert_eq!(words, title.split_whitespace().collect::<Vec<_>>());
    for line in &lines {
        assert!(line.chars().count() <= 15);
    }
}

#[test]
fn long_word_is_not_broken() {
    let plan = render_plan(&request(1, "Supercalifragilistic", "Yi Sang")).unwrap();
    assert_eq!(title_lines(&plan), vec!["Supercalifragilistic".to_string()]);
    let plan = render_plan(&request(1, "N Corp. Kleinhammer", "Yi Sang")).unwrap();
    assert_eq!(title_lines(&plan), vec!["N Corp.".to_string(), "Kleinhammer".to_string()]);
}

#[test]
fn long_name_wraps_below_anchor() {
    let plan = render_plan(&request(1, "W Corp.", "Heathcliff the Wild Hunt")).unwrap();
    let names: Vec<(String, i32, i32, Ink)> =
        draws(&plan).into_iter().filter(|d| d.3 == Ink::Text && d.1 == 71).collect();
    assert_eq!(
        names,
        vec![
            ("Heathcliff the".to_string(), 71, NAME_TOP, Ink::Text),
            ("Wild Hunt".to_string(), 71, NAME_TOP + LINE_HEIGHT, Ink::Text),
        ]
    );
    assert_eq!(NAME_TOP, IMAGE_SIZE - 130);
}

#[test]
fn plan_from_given_lines() {
    let req = request(3, "ignored", "ignored");
    let plan =
        plan_from_lines(&req, &vec!["One".to_string(), "Two".to_string()], &vec!["N".to_string()])
            .unwrap();
    assert_eq!(plan.layers[0].path, "root/asset/gradient_large.png");
    assert_eq!(plan.texts.len(), 6);
    assert_eq!(plan.texts[0].text, "One");
    assert_eq!((plan.texts[1].x, plan.texts[1].y), (27, 94));
    assert_eq!((plan.texts[2].x, plan.texts[2].y), (76, 475));
    assert_eq!((plan.texts[5].x, plan.texts[5].y), (71, 470));
    assert_eq!(plan_from_lines(&req, &vec![], &vec![]).unwrap_err(), ImageError::TextTooLong);
    let three = vec!["a".to_string(), "b".to_string(), "c".to_string()];
    assert_eq!(plan_from_lines(&req, &three, &vec![]).unwrap_err(), ImageError::TextTooLong);
}

#[test]
fn lines_step_by_line_height() {
    let lines = vec!["a".to_string(), "b".to_string(), "c".to_string()];
    let ds = text_draws(&lines, 3, 10, Ink::Text);
    let got: Vec<(String, i32, i32)> = ds.iter().map(|d| (d.text.clone(), d.x, d.y)).collect();
    assert_eq!(
        got,
        vec![("a".to_string(), 3, 10), ("b".to_string(), 3, 85), ("c".to_string(), 3, 160)]
    );
    assert!(text_draws(&Vec::new(), 0, 0, Ink::Shadow).is_empty());
}

#[test]
fn lines_past_largest_coordinate_are_left_out() {
    let lines = vec!["a".to_string(), "b".to_string(), "c".to_string()];
    let ds = text_draws(&lines, 0, i32::MAX - 80, Ink::Text);
    assert_eq!(ds.len(), 2);
    assert_eq!(ds[1].y, i32::MAX - 5);
}

#[test]
fn ink_colors() {
    assert_eq!(Ink::Text.rgba(), [255, 217, 0, 255]);
    assert_eq!(Ink::Shadow.rgba(), [30, 30, 30, 255]);
}
