use rs_imgix::{
    Direction, ImgixAuto, ImgixClientHints, ImgixColorSpace, ImgixCrop, ImgixFit, ImgixRect,
    ImgixUrl, X, Y,
};

#[test]
fn url_params_appear_in_call_order() {
    let url = ImgixUrl::build("https://foo.com").blur(40).q(40).w(300).finish();

    assert_eq!(url, "https://foo.com/?blur=40&q=40&w=300");
}

#[test]
fn url_with_no_params_ends_in_question_mark() {
    let url = ImgixUrl::build("https://foo.com").finish();

    assert_eq!(url, "https://foo.com/?");
}

#[test]
fn url_repeated_param_keeps_both_entries_in_call_order() {
    let url = ImgixUrl::build("https://foo.com").w(100).w(200).finish();

    assert_eq!(url, "https://foo.com/?w=100&w=200");
}

#[test]
fn url_base_is_not_normalized() {
    let url = ImgixUrl::build("https://foo.com/").q(1).finish();

    assert_eq!(url, "https://foo.com//?q=1");
}

#[test]
fn url_scalar_setters() {
    let url = ImgixUrl::build("https://foo.com")
        .h(250)
        .dpr(2)
        .faceindex(1)
        .facepad(10)
        .finish();

    assert_eq!(url, "https://foo.com/?h=250&dpr=2&faceindex=1&facepad=10");
}

#[test]
fn url_negative_values_pass_through() {
    let url = ImgixUrl::build("https://foo.com").w(-5).blur(-1).finish();

    assert_eq!(url, "https://foo.com/?w=-5&blur=-1");
}

#[test]
fn url_extreme_values() {
    let url = ImgixUrl::build("https://foo.com").w(i32::MAX).h(i32::MIN).finish();

    assert_eq!(url, "https://foo.com/?w=2147483647&h=-2147483648");
}

#[test]
fn url_bg_is_stored_verbatim() {
    let url = ImgixUrl::build("https://foo.com").bg("fff").finish();

    assert_eq!(url, "https://foo.com/?bg=fff");
}

#[test]
fn url_values_are_percent_encoded() {
    let url = ImgixUrl::build("https://foo.com").bg("a b&c=d").finish();

    assert_eq!(url, "https://foo.com/?bg=a%20b%26c%3Dd");
}

#[test]
fn url_non_ascii_value_is_byte_encoded() {
    let url = ImgixUrl::build("https://foo.com").bg("caf\u{e9}").finish();

    assert_eq!(url, "https://foo.com/?bg=caf%C3%A9");
}

#[test]
fn url_wide_chars_encode_every_utf8_byte() {
    let url = ImgixUrl::build("https://foo.com").bg("\u{20ac}\u{1f600}").finish();

    assert_eq!(url, "https://foo.com/?bg=%E2%82%AC%F0%9F%98%80");
}

#[test]
fn url_percent_and_controls() {
    let url = ImgixUrl::build("https://foo.com").bg("50%\n").finish();

    assert_eq!(url, "https://foo.com/?bg=50%%0A");
}

#[test]
fn url_auto_param() {
    let url = ImgixUrl::build("https://foo.com")
        .auto(ImgixAuto::build().compress().redeye().finish())
        .finish();

    assert_eq!(url, "https://foo.com/?auto=compress,redeye");
}

#[test]
fn url_crop_param() {
    let url = ImgixUrl::build("https://foo.com")
        .fit(ImgixFit::Crop)
        .w(400)
        .h(300)
        .crop(ImgixCrop::build().top().entropy().finish())
        .finish();

    assert_eq!(url, "https://foo.com/?fit=crop&w=400&h=300&crop=top,entropy");
}

#[test]
fn url_client_hints_param() {
    let url = ImgixUrl::build("https://foo.com")
        .ch(ImgixClientHints::build().dpr().width().finish())
        .finish();

    assert_eq!(url, "https://foo.com/?ch=width,dpr");
}

#[test]
fn url_color_space_param() {
    let url = ImgixUrl::build("https://foo.com").cs(ImgixColorSpace::TinySRGB).finish();

    assert_eq!(url, "https://foo.com/?cs=tinysrgb");
}

#[test]
fn url_rect_param() {
    let rect = ImgixRect {
        x: Direction::Number(300),
        y: Direction::Y(Y::Bottom),
        w: 100,
        h: 50,
    };
    let url = ImgixUrl::build("https://foo.com").rect(rect).finish();

    assert_eq!(url, "https://foo.com/?rect=300,bottom,100,50");
}

#[test]
fn url_rect_with_named_x() {
    let rect = ImgixRect {
        x: Direction::X(X::Center),
        y: Direction::Number(0),
        w: 10,
        h: 20,
    };
    let url = ImgixUrl::build("https://foo.com").rect(rect).finish();

    assert_eq!(url, "https://foo.com/?rect=center,0,10,20");
}

#[test]
fn url_finish_snapshots_and_builder_stays_usable() {
    let b = ImgixUrl::build("https://foo.com").q(75);
    let first = b.finish();
    let second = b.finish();

    assert_eq!(first, "https://foo.com/?q=75");
    assert_eq!(first, second);

    let extended = b.w(10).finish();
    assert_eq!(extended, "https://foo.com/?q=75&w=10");
}

#[test]
fn url_empty_flag_set_gives_empty_value() {
    let url = ImgixUrl::build("https://foo.com")
        .auto(ImgixAuto::build().finish())
        .finish();

    assert_eq!(url, "https://foo.com/?auto=");
}
