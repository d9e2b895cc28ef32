use videofix::config::{Config, DefaultFormat, Target};
use videofix::validation::{FormatSpec, Formats};

fn target(name: &str, video: &str) -> Target {
    Target {
        name: name.to_string(),
        format_spec: FormatSpec {
            audio: Formats::Reject(vec![]),
            video: Formats::Allow(vec![video.to_string()]),
            container: Formats::Reject(vec![]),
            pix_fmt: Formats::Reject(vec![]),
        },
        default: DefaultFormat {
            audio: "aac".to_string(),
            video: video.to_string(),
            pix_fmt: "yuv420p".to_string(),
        },
    }
}

fn config() -> Config {
    Config {
        default_target: "tv".to_string(),
        targets: vec![target("tv", "h264"), target("phone", "h265"), target("tv", "vp9")],
    }
}

#[test]
fn find_target_returns_first_exact_match() {
    let c = config();
    let t = c.find_target("phone").ok().unwrap();
    assert_eq!(t.name, "phone");
    assert_eq!(t.default.video, "h265");
    let t = c.find_target("tv").ok().unwrap();
    assert_eq!(t.default.video, "h264");
    let t = c.find_target(&c.default_target).ok().unwrap();
    assert_eq!(t.name, "tv");
}

#[test]
fn find_target_missing_names_the_request() {
    let c = config();
    let e = c.find_target("laptop").err().unwrap();
    assert_eq!(e.requested, "laptop");
    let e = c.find_target("").err().unwrap();
    assert_eq!(e.requested, "");
    assert!(c.find_target("TV").is_err());
    let empty = Config { default_target: "tv".to_string(), targets: vec![] };
    assert!(empty.find_target("tv").is_err());
}
