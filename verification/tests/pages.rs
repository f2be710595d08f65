use protoncode::icon::{app_icon, image_of, IconImage};
use protoncode::pages::{
    app_icon_data_url, app_protocol_response, embedded_font_face_css, overlay_html,
    proton_monitor_script, settings_html, Font, ResponseBody,
};

#[test]
fn script_looks_as_often_as_asked_for() {
    for (seconds, millis) in [(0, 5000), (4, 5000), (5, 5000), (8, 8000), (30, 30000)] {
        let script = proton_monitor_script(seconds);
        assert!(script.contains(&format!("const schedule = {millis};")), "{}", seconds);
        assert!(!script.contains("__SCHEDULE_MS__"));
        assert!(script.starts_with("\n(() => {\n"));
        assert!(script.ends_with("})();\n"));
    }
}

#[test]
fn pages_show_icon_and_version() {
    let overlay = overlay_html("icon://here");
    assert!(overlay.starts_with("<!doctype html>\n"));
    assert!(overlay.contains("src = \"icon://here\";"));
    assert!(!overlay.contains("__APP_ICON__"));
    assert!(overlay.contains(embedded_font_face_css()));
    assert!(overlay.contains("window.__PROTON2FA_OVERLAY = {"));
    let settings = settings_html("icon://there", "1.2.3");
    assert!(settings.contains("src = \"icon://there\";"));
    assert!(settings.contains("<div class=\"version\">v1.2.3</div>"));
    assert!(!settings.contains("__APP_VERSION__"));
    assert!(settings.contains("window.__PROTON2FA_STATUS = {"));
    assert!(settings.trim_end().ends_with("</html>"));
}

#[test]
fn icon_address_is_in_base64() {
    for (bytes, text) in [
        ("", ""),
        ("f", "Zg=="),
        ("fo", "Zm8="),
        ("foo", "Zm9v"),
        ("foob", "Zm9vYg=="),
        ("fooba", "Zm9vYmE="),
        ("foobar", "Zm9vYmFy"),
    ] {
        assert_eq!(
            app_icon_data_url(&bytes.as_bytes().to_vec()),
            format!("data:image/png;base64,{text}")
        );
    }
    assert_eq!(app_icon_data_url(&vec![0xfb, 0xff, 0xfe]), "data:image/png;base64,+//+");
}

#[test]
fn requests_are_answered() {
    let icon = vec![1, 2, 3];
    let url = app_icon_data_url(&icon);
    let overlay = app_protocol_response("/overlay.html", &icon, "1.0");
    assert_eq!(overlay.status, 200);
    assert_eq!(overlay.content_type, "text/html; charset=utf-8");
    assert_eq!(overlay.body, ResponseBody::Page(overlay_html(&url)));
    let settings = app_protocol_response("/settings.html", &icon, "1.0");
    assert_eq!(settings.body, ResponseBody::Page(settings_html(&url, "1.0")));
    for (path, font, file) in [
        ("/fonts/arizona-sans.ttf", Font::ArizonaSans, "ABCArizonaSansVariable-Trial.ttf"),
        ("/fonts/arizona-flare.ttf", Font::ArizonaFlare, "ABCArizonaFlareVariable-Trial.ttf"),
        ("/fonts/ubuntu-r.ttf", Font::UbuntuRegular, "ubuntu-r.ttf"),
        ("/fonts/ubuntu-m.ttf", Font::UbuntuMedium, "ubuntu-m.ttf"),
    ] {
        let answer = app_protocol_response(path, &icon, "1.0");
        assert_eq!(answer.status, 200);
        assert_eq!(answer.content_type, "font/ttf");
        assert_eq!(answer.body, ResponseBody::Font(font));
        assert_eq!(font.file_name(), file);
    }
    let missing = app_protocol_response("/nothing", &icon, "1.0");
    assert_eq!(missing.status, 404);
    assert_eq!(missing.content_type, "text/plain; charset=utf-8");
    assert_eq!(missing.body, ResponseBody::Words("Not Found".to_owned()));
}

#[test]
fn icons_are_decoded() {
    let mut picture = image::RgbImage::new(2, 1);
    picture.put_pixel(0, 0, image::Rgb([10, 20, 30]));
    picture.put_pixel(1, 0, image::Rgb([40, 50, 60]));
    let mut png = std::io::Cursor::new(Vec::new());
    picture.write_to(&mut png, image::ImageFormat::Png).expect("encoded");
    assert_eq!(
        app_icon(&png.into_inner()),
        Some(IconImage { width: 2, height: 1, rgba: vec![10, 20, 30, 255, 40, 50, 60, 255] })
    );
    assert_eq!(app_icon(&b"not an image".to_vec()), None);
    assert_eq!(
        image_of(Some((1, 1, vec![1, 2, 3, 4]))),
        Some(IconImage { width: 1, height: 1, rgba: vec![1, 2, 3, 4] })
    );
    assert_eq!(image_of(None), None);
}

#[test]
fn scripts_differ_from_five_seconds_on() {
    assert_eq!(proton_monitor_script(0), proton_monitor_script(5));
    assert_ne!(proton_monitor_script(5), proton_monitor_script(6));
    assert_ne!(proton_monitor_script(8), proton_monitor_script(80));
}
