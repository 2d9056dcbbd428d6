use cio::templates::{
    generated_file, render_shorturl_file, shorturl_file_order, terraform_name_checked,
    GeneratedFile, RenderFailure, ShortUrlFile, shorturls_subdomain, terraform_name, ShortUrl, TEMPLATE_CLOUDFLARE_TERRAFORM,
    TEMPLATE_NGINX, TEMPLATE_NGINX_PATHS, TEMPLATE_WARNING,
};

fn short(name: &str, subdomain: &str) -> ShortUrl {
    ShortUrl {
        name: name.to_string(),
        description: "d".to_string(),
        link: "https://example.com".to_string(),
        subdomain: subdomain.to_string(),
        discussion: String::new(),
    }
}

#[test]
fn terraform_names_never_start_with_a_digit() {
    assert_eq!(terraform_name("\"123\""), "_123");
    assert_eq!(terraform_name("\"rfd\""), "rfd");
    assert_eq!(terraform_name("1x"), "_1x");
    assert_eq!(terraform_name("\"\"a1\""), "a1");
    assert_eq!(terraform_name("é"), "é");
}

#[test]
fn subdomain_of_first_shorturl() {
    assert_eq!(shorturls_subdomain(&vec![]), None);
    assert_eq!(shorturls_subdomain(&vec![short("a", "corp"), short("b", "git")]), Some("corp".to_string()));
}

fn files_for(subdomain: &str, rendered: [&str; 3]) -> Vec<GeneratedFile> {
    shorturl_file_order()
        .into_iter()
        .zip(rendered)
        .map(|(f, r)| generated_file(f, subdomain, r))
        .collect()
}

#[test]
fn generated_files_paths_and_contents() {
    assert_eq!(
        shorturl_file_order(),
        vec![ShortUrlFile::Nginx, ShortUrlFile::NginxPaths, ShortUrlFile::CloudflareTerraform]
    );
    let files = files_for("corp", ["NGINX\n", "PATHS\n", "TF\n"]);
    assert_eq!(files.len(), 3);
    assert_eq!(files[0].path, "/nginx/conf.d/generated.corp.oxide.computer.conf");
    assert_eq!(files[1].path, "/nginx/conf.d/generated.corp.paths.oxide.computer.conf");
    assert_eq!(files[2].path, "/terraform/cloudflare/generated.corp.oxide.computer.tf");
    assert_eq!(files[0].contents, format!("{}NGINX\n# vi: ft=nginx", TEMPLATE_WARNING));
    assert_eq!(files[1].contents, format!("{}PATHS\n# vi: ft=nginx", TEMPLATE_WARNING));
    assert_eq!(files[2].contents, format!("{}TF\n", TEMPLATE_WARNING));
    for f in &files {
        assert!(f.contents.starts_with(TEMPLATE_WARNING));
    }
}

#[test]
fn templates_by_file() {
    assert_eq!(ShortUrlFile::Nginx.template(), TEMPLATE_NGINX);
    assert_eq!(ShortUrlFile::NginxPaths.template(), TEMPLATE_NGINX_PATHS);
    assert_eq!(ShortUrlFile::CloudflareTerraform.template(), TEMPLATE_CLOUDFLARE_TERRAFORM);
}

#[test]
fn templates_hold_their_placeholders() {
    assert!(TEMPLATE_WARNING.starts_with("# THIS FILE HAS BEEN GENERATED"));
    assert!(TEMPLATE_NGINX.contains("{{#each this}}"));
    assert!(TEMPLATE_NGINX_PATHS.contains("{{this.0.subdomain}}"));
    assert!(TEMPLATE_CLOUDFLARE_TERRAFORM.contains("{{terraformize this.name}}"));
}

#[test]
fn checked_terraform_names() {
    assert_eq!(terraform_name_checked("\"\""), None);
    assert_eq!(terraform_name_checked(""), None);
    assert_eq!(terraform_name_checked("\"9lives\""), Some("_9lives".to_string()));
}

fn render_all(urls: &Vec<ShortUrl>) -> Vec<GeneratedFile> {
    let subdomain = shorturls_subdomain(urls).unwrap();
    shorturl_file_order()
        .into_iter()
        .map(|f| render_shorturl_file(urls, &subdomain, f).unwrap())
        .collect()
}

#[test]
fn rendered_files_fill_the_templates() {
    let mut with_discussion = short("42", "rfd");
    with_discussion.discussion = "https://github.com/d/1".to_string();
    let urls = vec![with_discussion, short("api", "rfd")];
    let files = render_all(&urls);
    assert_eq!(files.len(), 3);
    assert_eq!(files[0].path, "/nginx/conf.d/generated.rfd.oxide.computer.conf");
    assert!(files[0].contents.starts_with(TEMPLATE_WARNING));
    assert!(files[0].contents.contains("server_name 42.rfd.oxide.computer;"));
    assert!(files[0].contents.contains("return 301 https://github.com/d/1;"));
    assert_eq!(files[0].contents.matches("location /discussion").count(), 1);
    assert!(files[0].contents.ends_with("# vi: ft=nginx"));
    assert!(files[1].contents.contains("server_name rfd.oxide.computer;"));
    assert!(files[1].contents.contains("location = /api {"));
    assert!(files[1].contents.contains("location = /42/discussion {"));
    assert!(!files[1].contents.contains("location = /api/discussion"));
    assert!(files[2].contents.contains("resource \"cloudflare_record\" \"_42_rfd_oxide_computer\""));
    assert!(files[2].contents.contains("resource \"cloudflare_record\" \"api_rfd_oxide_computer\""));
    assert!(!files[2].contents.ends_with("# vi: ft=nginx"));
}

#[test]
fn one_shorturl_with_a_leading_digit() {
    let urls = vec![ShortUrl {
        name: "1abc".to_string(),
        description: "d".to_string(),
        link: "https://example.com/x".to_string(),
        subdomain: "corp".to_string(),
        discussion: String::new(),
    }];
    let files = render_all(&urls);
    assert_eq!(files[0].path, "/nginx/conf.d/generated.corp.oxide.computer.conf");
    assert_eq!(files[1].path, "/nginx/conf.d/generated.corp.paths.oxide.computer.conf");
    assert_eq!(files[2].path, "/terraform/cloudflare/generated.corp.oxide.computer.tf");
    assert!(files[0].contents.contains("server_name 1abc.corp.oxide.computer;"));
    assert!(files[0].contents.contains("return 301 \"https://example.com/x\";"));
    assert!(!files[0].contents.contains("location /discussion"));
    assert!(files[2].contents.contains("\"_1abc_corp_oxide_computer\""));
    assert!(files[2].contents.contains("\"1abc.corp.oxide.computer\""));
}

#[test]
fn rendering_twice_gives_the_same_files() {
    let urls = vec![short("a", "git"), short("b", "git")];
    assert_eq!(render_all(&urls), render_all(&urls.clone()));
}

#[test]
fn an_empty_name_fails_the_terraform_file() {
    let urls = vec![short("", "corp")];
    assert!(render_shorturl_file(&urls, "corp", ShortUrlFile::Nginx).is_ok());
    assert_eq!(
        render_shorturl_file(&urls, "corp", ShortUrlFile::CloudflareTerraform),
        Err(RenderFailure { file: ShortUrlFile::CloudflareTerraform })
    );
}
