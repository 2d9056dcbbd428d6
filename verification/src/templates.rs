//! Short URLs: the nginx and Cloudflare terraform configuration generated
//! for them.
//!
//! Short URLs such as `{link}.corp.oxide.computer`, `{repo}.git.oxide.computer`
//! and `{num}.rfd.oxide.computer` are served by nginx redirects and DNS
//! records. For a list of short URLs of one subdomain three files are
//! generated from the templates below and committed to the configuration
//! repository: the nginx server blocks for the subdomains, the nginx
//! server block for the paths, and the terraform DNS records.

use std::collections::BTreeMap;

use handlebars::{Context, Handlebars, Helper, HelperResult, Output, RenderContext, RenderError};
use vstd::prelude::*;
use crate::text::{
    is_decimal_digit, spec_ends_with, spec_is_decimal_digit, spec_starts_with, spec_trim_by, trim_by, CharSet,
};

verus! {

/// The warning at the top of every generated file, so that nobody edits
/// one by hand.
pub const TEMPLATE_WARNING: &'static str = "# THIS FILE HAS BEEN GENERATED BY THE CIO REPO
# AND SHOULD NEVER BE EDITED BY HAND!!
# Instead change the link in configs/links.toml
";

/// Template for creating nginx conf files for the subdomain urls.
pub const TEMPLATE_NGINX: &'static str = r#"{{#each this}}
# Redirect {{this.link}} to {{this.name}}.{{this.subdomain}}.oxide.computer
# Description: {{this.description}}
server {
	listen      [::]:443 ssl http2;
	listen      443 ssl http2;
	server_name {{this.name}}.{{this.subdomain}}.oxide.computer;

	include ssl-params.conf;

	ssl_certificate			/etc/nginx/ssl/wildcard.{{this.subdomain}}.oxide.computer/fullchain.pem;
	ssl_certificate_key		/etc/nginx/ssl/wildcard.{{this.subdomain}}.oxide.computer/privkey.pem;
	ssl_trusted_certificate	    	/etc/nginx/ssl/wildcard.{{this.subdomain}}.oxide.computer/fullchain.pem;

	# Add redirect.
	location / {
		return 301 "{{this.link}}";
	}

	{{#if this.discussion}}# Redirect /discussion to {{this.discussion}}
	# Description: Discussion link for {{this.description}}
	location /discussion {
		return 301 {{this.discussion}};
	}
{{/if}}
}
{{/each}}
"#;

/// Template for creating nginx conf files for the paths urls.
pub const TEMPLATE_NGINX_PATHS: &'static str = r#"server {
	listen      [::]:443 ssl http2;
	listen      443 ssl http2;
	server_name {{this.0.subdomain}}.oxide.computer;

	include ssl-params.conf;

	# Note this certificate is NOT the wildcard, since these are paths.
	ssl_certificate			/etc/nginx/ssl/{{this.0.subdomain}}.oxide.computer/fullchain.pem;
	ssl_certificate_key		/etc/nginx/ssl/{{this.0.subdomain}}.oxide.computer/privkey.pem;
	ssl_trusted_certificate	        /etc/nginx/ssl/{{this.0.subdomain}}.oxide.computer/fullchain.pem;

	location = / {
		return 301 https://github.com/oxidecomputer/meta/tree/master/links;
	}

	{{#each this}}
	# Redirect {{this.subdomain}}.oxide.computer/{{this.name}} to {{this.link}}
	# Description: {{this.description}}
	location = /{{this.name}} {
		return 301 "{{this.link}}";
	}
{{#if this.discussion}}	# Redirect /{{this.name}}/discussion to {{this.discussion}}
	# Description: Discussion link for {{this.name}}
	location = /{{this.name}}/discussion {
		return 301 {{this.discussion}};
	}
{{/if}}
{{/each}}
}
"#;

/// Template for creating DNS records in our Cloudflare terraform configs.
pub const TEMPLATE_CLOUDFLARE_TERRAFORM: &'static str = r#"{{#each this}}
resource "cloudflare_record" "{{terraformize this.name}}_{{this.subdomain}}_oxide_computer" {
  zone_id  = var.zone_id-oxide_computer
  name     = "{{this.name}}.{{this.subdomain}}.oxide.computer"
  value    = var.maverick_ip
  type     = "A"
  ttl      = 1
  priority = 0
  proxied  = false
}
{{/each}}
"#;

/// The trailer that sets the editor mode of the nginx files.
pub const NGINX_VIM_TRAILER: &'static str = "# vi: ft=nginx";

/// The branch of the configuration repository that the files go to.
pub const CONFIG_BRANCH: &'static str = "master";

/// A short URL: `name.subdomain` redirects to `link`.
#[derive(Clone, Debug, PartialEq)]
pub struct ShortUrl {
    pub name: String,
    pub description: String,
    pub link: String,
    pub subdomain: String,
    /// The discussion link, or the empty string.
    pub discussion: String,
}

/// The terraform resource name for a rendered template parameter: the
/// parameter without surrounding `"` characters, with a leading `_` where
/// it would begin with a decimal digit (terraform refuses such names).
pub open spec fn spec_terraform_name(param: Seq<char>) -> Seq<char> {
    let name = spec_trim_by(param, CharSet::Only('"'));
    if spec_is_decimal_digit(name[0]) {
        seq!['_'] + name
    } else {
        name
    }
}

/// The terraform resource name for a rendered template parameter (the
/// `terraformize` template helper). The parameter must hold something
/// besides `"` characters.
pub fn terraform_name(param: &str) -> (r: String)
    requires
        spec_trim_by(param@, CharSet::Only('"')).len() > 0,
    ensures
        r@ == spec_terraform_name(param@),
{
    let name = trim_by(param, CharSet::Only('"'));
    let first = name.get_char(0);
    if is_decimal_digit(first) {
        let mut r = String::from_str("_");
        proof {
            reveal_strlit("_");
        }
        r.append(name);
        r
    } else {
        String::from_str(name)
    }
}

/// The terraform resource name for a rendered template parameter, or
/// `None` where the parameter holds nothing besides `"` characters (and so
/// has no first character to look at).
pub fn terraform_name_checked(param: &str) -> (r: Option<String>)
    ensures
        r is None <==> spec_trim_by(param@, CharSet::Only('"')).len() == 0,
        r matches Some(name) ==> name@ == spec_terraform_name(param@),
{
    if trim_by(param, CharSet::Only('"')).unicode_len() == 0 {
        None
    } else {
        Some(terraform_name(param))
    }
}

/// A terraform name is never empty and never begins with a digit; a name
/// that does not begin with one is kept as it is.
pub proof fn law_terraform_name_starts_with_no_digit(param: Seq<char>)
    requires
        spec_trim_by(param, CharSet::Only('"')).len() > 0,
    ensures
        spec_terraform_name(param).len() > 0,
        !spec_is_decimal_digit(spec_terraform_name(param)[0]),
        !spec_is_decimal_digit(spec_trim_by(param, CharSet::Only('"'))[0])
            ==> spec_terraform_name(param) == spec_trim_by(param, CharSet::Only('"')),
{
}

/// The subdomain the files are generated for: that of the first short
/// URL, or `None` where there are none (and nothing is generated).
pub fn shorturls_subdomain(shorturls: &Vec<ShortUrl>) -> (r: Option<String>)
    ensures
        shorturls@.len() == 0 ==> r is None,
        shorturls@.len() > 0 ==> r == Some(shorturls@[0].subdomain),
{
    if shorturls.len() == 0 {
        None
    } else {
        Some(shorturls[0].subdomain.clone())
    }
}

/// `prefix`, then `middle`, then `suffix`.
fn concat3(prefix: &str, middle: &str, suffix: &str) -> (r: String)
    ensures
        r@ == prefix@ + middle@ + suffix@,
{
    let mut r = String::from_str(prefix);
    r.append(middle);
    r.append(suffix);
    r
}

/// The pieces around the subdomain in the generated files' paths.
pub const NGINX_FILE_PREFIX: &'static str = "/nginx/conf.d/generated.";

pub const NGINX_FILE_SUFFIX: &'static str = ".oxide.computer.conf";

pub const NGINX_PATHS_FILE_SUFFIX: &'static str = ".paths.oxide.computer.conf";

pub const TERRAFORM_FILE_PREFIX: &'static str = "/terraform/cloudflare/generated.";

pub const TERRAFORM_FILE_SUFFIX: &'static str = ".oxide.computer.tf";

/// A file to write to the configuration repository.
#[derive(Clone, Debug, PartialEq)]
pub struct GeneratedFile {
    pub path: String,
    pub contents: String,
}

/// The three files generated for a subdomain, in the order they are
/// committed.
#[derive(Clone, Copy, Debug, PartialEq, Eq)]
pub enum ShortUrlFile {
    /// `/nginx/conf.d/generated.{subdomain}.oxide.computer.conf`: a server
    /// block per short URL.
    Nginx,
    /// `/nginx/conf.d/generated.{subdomain}.paths.oxide.computer.conf`: one
    /// server block with a location per short URL.
    NginxPaths,
    /// `/terraform/cloudflare/generated.{subdomain}.oxide.computer.tf`: a DNS
    /// record per short URL.
    CloudflareTerraform,
}

/// The files in the order they are generated and committed.
pub open spec fn spec_shorturl_file_order() -> Seq<ShortUrlFile> {
    seq![ShortUrlFile::Nginx, ShortUrlFile::NginxPaths, ShortUrlFile::CloudflareTerraform]
}

/// The files in the order they are generated and committed.
pub fn shorturl_file_order() -> (r: Vec<ShortUrlFile>)
    ensures
        r@ == spec_shorturl_file_order(),
{
    let mut r: Vec<ShortUrlFile> = Vec::new();
    r.push(ShortUrlFile::Nginx);
    r.push(ShortUrlFile::NginxPaths);
    r.push(ShortUrlFile::CloudflareTerraform);
    assert(r@ =~= spec_shorturl_file_order());
    r
}

impl ShortUrlFile {
    pub open spec fn spec_template(self) -> &'static str {
        match self {
            ShortUrlFile::Nginx => TEMPLATE_NGINX,
            ShortUrlFile::NginxPaths => TEMPLATE_NGINX_PATHS,
            ShortUrlFile::CloudflareTerraform => TEMPLATE_CLOUDFLARE_TERRAFORM,
        }
    }

    /// The template the file is rendered from.
    pub fn template(&self) -> (r: &'static str)
        ensures
            r == self.spec_template(),
    {
        match self {
            ShortUrlFile::Nginx => TEMPLATE_NGINX,
            ShortUrlFile::NginxPaths => TEMPLATE_NGINX_PATHS,
            ShortUrlFile::CloudflareTerraform => TEMPLATE_CLOUDFLARE_TERRAFORM,
        }
    }

    pub open spec fn spec_path(self, subdomain: Seq<char>) -> Seq<char> {
        match self {
            ShortUrlFile::Nginx => NGINX_FILE_PREFIX@ + subdomain + NGINX_FILE_SUFFIX@,
            ShortUrlFile::NginxPaths => NGINX_FILE_PREFIX@ + subdomain + NGINX_PATHS_FILE_SUFFIX@,
            ShortUrlFile::CloudflareTerraform => TERRAFORM_FILE_PREFIX@ + subdomain
                + TERRAFORM_FILE_SUFFIX@,
        }
    }

    /// The file's path in the configuration repository.
    pub fn path(&self, subdomain: &str) -> (r: String)
        ensures
            r@ == self.spec_path(subdomain@),
    {
        match self {
            ShortUrlFile::Nginx => concat3(NGINX_FILE_PREFIX, subdomain, NGINX_FILE_SUFFIX),
            ShortUrlFile::NginxPaths => concat3(
                NGINX_FILE_PREFIX,
                subdomain,
                NGINX_PATHS_FILE_SUFFIX,
            ),
            ShortUrlFile::CloudflareTerraform => concat3(
                TERRAFORM_FILE_PREFIX,
                subdomain,
                TERRAFORM_FILE_SUFFIX,
            ),
        }
    }

    pub open spec fn spec_contents(self, rendered: Seq<char>) -> Seq<char> {
        match self {
            ShortUrlFile::CloudflareTerraform => TEMPLATE_WARNING@ + rendered,
            _ => TEMPLATE_WARNING@ + rendered + NGINX_VIM_TRAILER@,
        }
    }

    /// The file's contents: the warning, the rendered template, and for
    /// the nginx files the editor trailer.
    pub fn contents(&self, rendered: &str) -> (r: String)
        ensures
            r@ == self.spec_contents(rendered@),
    {
        match self {
            ShortUrlFile::CloudflareTerraform => {
                let mut r = String::from_str(TEMPLATE_WARNING);
                r.append(rendered);
                r
            },
            _ => concat3(TEMPLATE_WARNING, rendered, NGINX_VIM_TRAILER),
        }
    }
}

/// Every generated file begins with the warning not to edit it by hand,
/// and the nginx files end with the editor trailer.
pub proof fn law_generated_files_start_with_warning(file: ShortUrlFile, rendered: Seq<char>)
    ensures
        spec_starts_with(file.spec_contents(rendered), TEMPLATE_WARNING@),
        file != ShortUrlFile::CloudflareTerraform ==> spec_ends_with(
            file.spec_contents(rendered),
            NGINX_VIM_TRAILER@,
        ),
{
    let c = file.spec_contents(rendered);
    let w = TEMPLATE_WARNING@;
    let t = NGINX_VIM_TRAILER@;
    assert(c.subrange(0, w.len() as int) =~= w);
    if file != ShortUrlFile::CloudflareTerraform {
        assert(c.subrange(c.len() - t.len(), c.len() as int) =~= t);
    }
}

/// The file `file` for `subdomain`, given its template rendered over the
/// subdomain's short URLs.
pub fn generated_file(file: ShortUrlFile, subdomain: &str, rendered: &str) -> (r: GeneratedFile)
    ensures
        r.path@ == file.spec_path(subdomain@),
        r.contents@ == file.spec_contents(rendered@),
        spec_starts_with(r.contents@, TEMPLATE_WARNING@),
{
    proof {
        law_generated_files_start_with_warning(file, rendered@);
    }
    GeneratedFile { path: file.path(subdomain), contents: file.contents(rendered) }
}

/// The fields of each short URL that the templates read: name,
/// description, link, subdomain and discussion link.
pub open spec fn spec_url_fields(
    urls: Seq<ShortUrl>,
) -> Seq<(Seq<char>, Seq<char>, Seq<char>, Seq<char>, Seq<char>)> {
    urls.map_values(
        |u: ShortUrl| (u.name@, u.description@, u.link@, u.subdomain@, u.discussion@),
    )
}

/// What `handlebars` renders from `template` over the short URLs with
/// these fields (a list of objects with the keys `name`, `description`,
/// `link`, `subdomain` and `discussion`), with the `terraformize` helper
/// given by [`terraform_name_checked`]; `None` where rendering fails.
pub uninterp spec fn spec_rendered(
    template: Seq<char>,
    urls: Seq<(Seq<char>, Seq<char>, Seq<char>, Seq<char>, Seq<char>)>,
) -> Option<Seq<char>>;

/// Renders `template` over `urls` with `handlebars`
/// (`Registry::render_template`): a fresh registry with the `terraformize`
/// helper, which writes [`terraform_name_checked`] of its parameter and
/// fails where that is `None`; the data is the list of the short URLs as
/// objects of their five fields. The rendering depends on the template and
/// these fields alone, so its result is named [`spec_rendered`].
#[verifier::external_body]
fn render_over_shorturls(template: &str, urls: &Vec<ShortUrl>) -> (r: Option<String>)
    ensures
        r is Some <==> spec_rendered(template@, spec_url_fields(urls@)) is Some,
        r matches Some(s) ==> spec_rendered(template@, spec_url_fields(urls@)) == Some(s@),
{
    let mut registry = Handlebars::new();
    registry.register_helper("terraformize", Box::new(|h: &Helper, _: &Handlebars, _: &Context, _: &mut RenderContext, out: &mut dyn Output| -> HelperResult {
        Ok(out.write(&terraform_name_checked(&h.param(0).map(|p| p.value().to_string()).unwrap_or_default()).ok_or(RenderError::new(""))?)?)
    }));
    let data: Vec<_> = urls.iter().map(|u| BTreeMap::from([("name", &u.name), ("description", &u.description), ("link", &u.link), ("subdomain", &u.subdomain), ("discussion", &u.discussion)])).collect();
    registry.render_template(template, &data).ok()
}

/// A template that failed to render.
#[derive(Clone, Copy, Debug, PartialEq, Eq)]
pub struct RenderFailure {
    pub file: ShortUrlFile,
}

/// The file `file` for `subdomain`: its template rendered over `urls`
/// and put in place as [`generated_file`] states; or the failure, exactly
/// where the template does not render over them.
pub fn render_shorturl_file(
    urls: &Vec<ShortUrl>,
    subdomain: &str,
    file: ShortUrlFile,
) -> (r: Result<GeneratedFile, RenderFailure>)
    ensures
        r is Ok <==> spec_rendered(file.spec_template()@, spec_url_fields(urls@)) is Some,
        r matches Err(e) ==> e.file == file,
        r matches Ok(f) ==> {
            &&& f.path@ == file.spec_path(subdomain@)
            &&& f.contents@ == file.spec_contents(
                spec_rendered(file.spec_template()@, spec_url_fields(urls@))->0,
            )
        },
{
    match render_over_shorturls(file.template(), urls) {
        Some(rendered) => Ok(generated_file(file, subdomain, rendered.as_str())),
        None => Err(RenderFailure { file }),
    }
}

/// Rendering is a function of the template and the short URLs' fields:
/// two lists with the same fields give the same file, and the file
/// begins with the warning.
pub proof fn law_rendered_files_depend_on_fields_alone(
    urls1: Seq<ShortUrl>,
    urls2: Seq<ShortUrl>,
    file: ShortUrlFile,
)
    requires
        spec_url_fields(urls1) == spec_url_fields(urls2),
        spec_rendered(file.spec_template()@, spec_url_fields(urls1)) is Some,
    ensures
        spec_rendered(file.spec_template()@, spec_url_fields(urls2)) is Some,
        file.spec_contents(spec_rendered(file.spec_template()@, spec_url_fields(urls1))->0)
            == file.spec_contents(spec_rendered(file.spec_template()@, spec_url_fields(urls2))->0),
        spec_starts_with(
            file.spec_contents(spec_rendered(file.spec_template()@, spec_url_fields(urls1))->0),
            TEMPLATE_WARNING@,
        ),
{
    law_generated_files_start_with_warning(
        file,
        spec_rendered(file.spec_template()@, spec_url_fields(urls1))->0,
    );
}


/// A generated file is the warning followed by the whole rendered text,
/// with nothing cut or added in between; the nginx files then end with the
/// editor trailer, the terraform file ends with the rendered text itself.
pub proof fn law_contents_hold_the_whole_rendering(file: ShortUrlFile, rendered: Seq<char>)
    ensures
        file.spec_contents(rendered).subrange(0, TEMPLATE_WARNING@.len() as int)
            == TEMPLATE_WARNING@,
        file.spec_contents(rendered).subrange(
            TEMPLATE_WARNING@.len() as int,
            (TEMPLATE_WARNING@.len() + rendered.len()) as int,
        ) == rendered,
        file == ShortUrlFile::CloudflareTerraform ==> file.spec_contents(rendered).len()
            == TEMPLATE_WARNING@.len() + rendered.len(),
        file != ShortUrlFile::CloudflareTerraform ==> file.spec_contents(rendered).len()
            == TEMPLATE_WARNING@.len() + rendered.len() + NGINX_VIM_TRAILER@.len()
            && file.spec_contents(rendered).subrange(
            (TEMPLATE_WARNING@.len() + rendered.len()) as int,
            file.spec_contents(rendered).len() as int,
        ) == NGINX_VIM_TRAILER@,
{
    let c = file.spec_contents(rendered);
    let w = TEMPLATE_WARNING@;
    let t = NGINX_VIM_TRAILER@;
    assert(c.subrange(0, w.len() as int) =~= w);
    assert(c.subrange(w.len() as int, (w.len() + rendered.len()) as int) =~= rendered);
    if file != ShortUrlFile::CloudflareTerraform {
        assert(c.subrange((w.len() + rendered.len()) as int, c.len() as int) =~= t);
    }
}

/// Each file is rendered from its own template, and goes to a path made
/// of its own prefix, the subdomain and its own suffix.
pub proof fn law_each_file_has_its_template_and_path(file: ShortUrlFile, subdomain: Seq<char>)
    ensures
        file == ShortUrlFile::Nginx ==> file.spec_template() == TEMPLATE_NGINX
            && file.spec_path(subdomain) == NGINX_FILE_PREFIX@ + subdomain + NGINX_FILE_SUFFIX@,
        file == ShortUrlFile::NginxPaths ==> file.spec_template() == TEMPLATE_NGINX_PATHS
            && file.spec_path(subdomain) == NGINX_FILE_PREFIX@ + subdomain
            + NGINX_PATHS_FILE_SUFFIX@,
        file == ShortUrlFile::CloudflareTerraform ==> file.spec_template()
            == TEMPLATE_CLOUDFLARE_TERRAFORM && file.spec_path(subdomain) == TERRAFORM_FILE_PREFIX@
            + subdomain + TERRAFORM_FILE_SUFFIX@,
        spec_shorturl_file_order().len() == 3,
        spec_shorturl_file_order()[0] == ShortUrlFile::Nginx,
        spec_shorturl_file_order()[1] == ShortUrlFile::NginxPaths,
        spec_shorturl_file_order()[2] == ShortUrlFile::CloudflareTerraform,
{
}

/// The data rendered over holds one entry per short URL, in order, each
/// with that URL's name, description, link, subdomain and discussion link.
pub proof fn law_url_fields_one_per_url(urls: Seq<ShortUrl>)
    ensures
        spec_url_fields(urls).len() == urls.len(),
        forall|i: int|
            0 <= i < urls.len() ==> #[trigger] spec_url_fields(urls)[i] == (
                urls[i].name@,
                urls[i].description@,
                urls[i].link@,
                urls[i].subdomain@,
                urls[i].discussion@,
            ),
{
}

/// A name that begins with a digit gets exactly one `_` in front of it and
/// is otherwise kept whole; the `"` characters around the parameter are
/// all that is dropped.
pub proof fn law_terraform_name_prefixes_digits(param: Seq<char>)
    requires
        spec_trim_by(param, CharSet::Only('"')).len() > 0,
    ensures
        spec_is_decimal_digit(spec_trim_by(param, CharSet::Only('"'))[0]) ==> spec_terraform_name(
            param,
        ).len() == spec_trim_by(param, CharSet::Only('"')).len() + 1 && spec_terraform_name(
            param,
        )[0] == '_' && spec_terraform_name(param).subrange(
            1,
            spec_terraform_name(param).len() as int,
        ) == spec_trim_by(param, CharSet::Only('"')),
{
    let name = spec_trim_by(param, CharSet::Only('"'));
    if spec_is_decimal_digit(name[0]) {
        assert((seq!['_'] + name).subrange(1, (name.len() + 1) as int) =~= name);
    }
}

} // verus!
