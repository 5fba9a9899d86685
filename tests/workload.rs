use foreci::text::{decimal_text, join_texts, same_text};
use foreci::workload::{DockerCompose, FilePath};

fn blank(name: &str, image: &str) -> DockerCompose {
    DockerCompose {
        name: name.to_string(),
        service: String::new(),
        image: image.to_string(),
        ports: String::new(),
        container_name: String::new(),
        hostname: String::new(),
        build_context: String::new(),
        dockerfile: String::new(),
        environment: vec![],
        volumes: vec![],
        networks: vec![],
        restart: String::new(),
    }
}

fn strings(items: &[&str]) -> Vec<String> {
    items.iter().map(|s| s.to_string()).collect()
}

#[test]
fn create_args_with_every_field() {
    let mut c = blank("shop", "nginx:1.25");
    c.service = "web".to_string();
    c.container_name = "shop-web-1".to_string();
    c.hostname = "web.local".to_string();
    c.ports = "8080:80".to_string();
    c.environment = strings(&["A=1", "B=2"]);
    c.volumes = strings(&["./data:/data"]);
    c.restart = "always".to_string();
    assert_eq!(
        c.create_args(),
        strings(&[
            "create", "--image", "nginx:1.25", "--start", "--name", "shop-web-1", "--hostname", "web.local",
            "--ports", "8080:80", "--env", "A=1,B=2", "--volumes", "./data:/data", "--restart", "always",
        ])
    );
}

#[test]
fn create_args_minimal() {
    let c = blank("shop", "redis");
    assert_eq!(c.create_args(), strings(&["create", "--image", "redis", "--start"]));
}

#[test]
fn create_args_derives_name_from_service() {
    let mut c = blank("shop", "redis");
    c.service = "cache".to_string();
    c.networks = strings(&["back"]);
    assert_eq!(c.create_args(), strings(&["create", "--image", "redis", "--start", "--name", "shop-cache"]));
}

#[test]
fn compose_file_path() {
    let f = FilePath { filepath: "/srv/app".to_string() };
    assert_eq!(f.compose_file(), "/srv/app/docker-compose.yml");
}

#[test]
fn text_helpers() {
    assert_eq!(join_texts(&strings(&[]), ","), "");
    assert_eq!(join_texts(&strings(&["a"]), ","), "a");
    assert_eq!(join_texts(&strings(&["a", "b", "c"]), ", "), "a, b, c");
    assert_eq!(decimal_text(0), "0");
    assert_eq!(decimal_text(7), "7");
    assert_eq!(decimal_text(120), "120");
    assert_eq!(decimal_text(9876543210), "9876543210");
    assert!(same_text("héllo", "héllo"));
    assert!(!same_text("abc", "abd"));
    assert!(!same_text("abc", "ab"));
}
