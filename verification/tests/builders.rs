use rs_imgix::{
    Direction, ImgixAuto, ImgixClientHints, ImgixColorSpace, ImgixCrop, ImgixFit, ImgixRect,
    ImgixUrl, X, Y,
};

#[test]
fn auto_works() {
    let str_params = ImgixAuto::build()
        .compress()
        .enhance()
        .format()
        .finish()
        .to_string();

    assert_eq!(str_params, "compress,enhance,format");
}

#[test]
fn client_hints_works() {
    let str_params = ImgixClientHints::build()
        .width()
        .dpr()
        .save_data()
        .finish()
        .to_string();

    assert_eq!(str_params, "width,dpr,save-data");
}

#[test]
fn color_space_works() {
    assert_eq!(ImgixColorSpace::SRGB.to_string(), "srgb");
}

#[test]
fn crop_works() {
    let str_params = ImgixCrop::build()
        .top()
        .bottom()
        .edges()
        .finish()
        .to_string();

    assert_eq!(str_params, "top,bottom,edges");
}

#[test]
fn fit_works() {
    assert_eq!("facearea", ImgixFit::FaceArea.to_string());
}

#[test]
fn lib_works() {
    let url = ImgixUrl::build("https://foo.com")
        .blur(40)
        .q(40)
        .w(300)
        .fit(ImgixFit::Crop)
        .ar(9, 1)
        .finish();

    assert_eq!(url, "https://foo.com/?blur=40&q=40&w=300&fit=crop&ar=9:1");
}

#[test]
fn rect_works() {
    let string_params: String = ImgixRect {
        x: Direction::Number(300),
        y: Direction::Y(Y::Bottom),
        w: 100,
        h: 50,
    }
    .to_string();

    assert_eq!(string_params, "300,bottom,100,50")
}

#[test]
fn auto_single_flag() {
    assert_eq!(ImgixAuto::build().redeye().finish().to_string(), "redeye");
}

#[test]
fn auto_declared_order_not_call_order() {
    let str_params = ImgixAuto::build()
        .redeye()
        .compress()
        .finish()
        .to_string();

    assert_eq!(str_params, "compress,redeye");
}

#[test]
fn auto_toggle_is_idempotent() {
    let str_params = ImgixAuto::build()
        .compress()
        .compress()
        .finish()
        .to_string();

    assert_eq!(str_params, "compress");
}

#[test]
fn auto_zero_flags_is_empty() {
    assert_eq!(ImgixAuto::build().finish().to_string(), "");
}

#[test]
fn client_hints_zero_flags_is_empty() {
    assert_eq!(ImgixClientHints::build().finish().to_string(), "");
}

#[test]
fn crop_zero_flags_is_empty() {
    assert_eq!(ImgixCrop::build().finish().to_string(), "");
}

#[test]
fn crop_declared_order_not_call_order() {
    let str_params = ImgixCrop::build()
        .entropy()
        .focalpoint()
        .faces()
        .left()
        .finish()
        .to_string();

    assert_eq!(str_params, "left,faces,focalpoint,entropy");
}

#[test]
fn crop_all_flags() {
    let str_params = ImgixCrop::build()
        .top()
        .bottom()
        .left()
        .right()
        .faces()
        .focalpoint()
        .edges()
        .entropy()
        .finish()
        .to_string();

    assert_eq!(
        str_params,
        "top,bottom,left,right,faces,focalpoint,edges,entropy"
    );
}

#[test]
fn client_hints_partial() {
    assert_eq!(
        ImgixClientHints::build().save_data().finish().to_string(),
        "save-data"
    );
}

#[test]
fn builder_snapshots_are_independent() {
    let partial = ImgixAuto::build().compress();
    let first = partial.finish();
    let second = partial.enhance().finish();

    assert_eq!(first.to_string(), "compress");
    assert_eq!(second.to_string(), "compress,enhance");
}

#[test]
fn fit_tokens() {
    assert_eq!(ImgixFit::Clamp.to_string(), "clamp");
    assert_eq!(ImgixFit::Clip.to_string(), "clip");
    assert_eq!(ImgixFit::Crop.to_string(), "crop");
    assert_eq!(ImgixFit::FaceArea.to_string(), "facearea");
    assert_eq!(ImgixFit::Fill.to_string(), "fill");
    assert_eq!(ImgixFit::FillMax.to_string(), "fillmax");
    assert_eq!(ImgixFit::Max.to_string(), "max");
    assert_eq!(ImgixFit::Min.to_string(), "min");
    assert_eq!(ImgixFit::Scale.to_string(), "scale");
}

#[test]
fn color_space_tokens() {
    assert_eq!(ImgixColorSpace::SRGB.to_string(), "srgb");
    assert_eq!(ImgixColorSpace::AdobeRGB1998.to_string(), "adobergb1998");
    assert_eq!(ImgixColorSpace::TinySRGB.to_string(), "tinysrgb");
    assert_eq!(ImgixColorSpace::Strip.to_string(), "strip");
}

#[test]
fn direction_tokens() {
    assert_eq!(X::Left.to_string(), "left");
    assert_eq!(X::Center.to_string(), "center");
    assert_eq!(X::Right.to_string(), "right");
    assert_eq!(Y::Top.to_string(), "top");
    assert_eq!(Y::Middle.to_string(), "middle");
    assert_eq!(Y::Bottom.to_string(), "bottom");
    assert_eq!(Direction::Number(-12).to_string(), "-12");
    assert_eq!(Direction::X(X::Center).to_string(), "center");
    assert_eq!(Direction::Y(Y::Middle).to_string(), "middle");
}

#[test]
fn rect_accepts_negative_and_zero_dimensions() {
    let rect = ImgixRect {
        x: Direction::X(X::Left),
        y: Direction::Number(-7),
        w: 0,
        h: -50,
    };

    assert_eq!(rect.to_string(), "left,-7,0,-50");
}
