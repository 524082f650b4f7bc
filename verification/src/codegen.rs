//! What the service crate generator computes: the contents of each service
//! crate's `Cargo.toml` and `lib.rs`, the paths it reads and writes, which
//! protocol date of a service it uses, and which protocols need JSON
//! serialization.
use vstd::prelude::*;

use crate::text::{
    chars_of, lemma_concat_contains, lemma_lex_irreflexive, lemma_lex_total,
    lemma_lex_transitive, lemma_replace_char_pointwise, lemma_replace_char_replaces_all, lex_less,
    replace_char, spec_lex_less, spec_replace_char,
};

verus! {

/// The abstract value of a `Service`: its name and the date of the protocol
/// definition to generate from.
pub struct ServiceModel {
    pub name: Seq<char>,
    pub protocol_date: Seq<char>,
}

/// A service to generate a crate for.
pub struct Service {
    pub name: String,
    protocol_date: String,
}

impl View for Service {
    type V = ServiceModel;

    closed spec fn view(&self) -> ServiceModel {
        ServiceModel { name: self.name@, protocol_date: self.protocol_date@ }
    }
}

/// The files of one service's generation: the source that the generator
/// writes, the module it is renamed to, and the service definition it reads.
pub struct GenerationPaths {
    /// Relative to the services directory.
    pub botocore_source: String,
    /// Relative to the services directory.
    pub module_source: String,
    /// Under the botocore data directory.
    pub service_definition: String,
}

/// The source written for service `name`, relative to the services directory.
pub open spec fn spec_botocore_source(name: Seq<char>) -> Seq<char> {
    name + "/src/"@ + name + "_botocore.rs"@
}

/// The module file of service `name`, relative to the services directory.
pub open spec fn spec_module_source(name: Seq<char>) -> Seq<char> {
    name + "/src/"@ + name + ".rs"@
}

/// The service definition of service `name` at `date`, under `data_dir`.
pub open spec fn spec_service_definition(data_dir: Seq<char>, name: Seq<char>, date: Seq<char>) -> Seq<
    char,
> {
    data_dir + name + "/"@ + date + "/service-2.json"@
}

impl Service {
    /// A service with the given name and protocol date.
    pub fn new(name: String, protocol_date: String) -> (r: Service)
        ensures
            r@.name == name@,
            r@.protocol_date == protocol_date@,
    {
        Service { name, protocol_date }
    }

    /// The paths of this service's generation, with the service definition
    /// under `data_dir`.
    pub fn generation_paths(&self, data_dir: &str) -> (r: GenerationPaths)
        ensures
            r.botocore_source@ == spec_botocore_source(self@.name),
            r.module_source@ == spec_module_source(self@.name),
            r.service_definition@ == spec_service_definition(
                data_dir@,
                self@.name,
                self@.protocol_date,
            ),
            r.botocore_source@ == self@.name + "/src/"@ + self@.name + "_botocore.rs"@,
            r.module_source@ == self@.name + "/src/"@ + self@.name + ".rs"@,
            r.service_definition@ == data_dir@ + self@.name + "/"@ + self@.protocol_date
                + "/service-2.json"@,
    {
        let name = self.name.as_str();
        let mut botocore_source = name.to_owned();
        botocore_source.append("/src/");
        botocore_source.append(name);
        botocore_source.append("_botocore.rs");
        let mut module_source = name.to_owned();
        module_source.append("/src/");
        module_source.append(name);
        module_source.append(".rs");
        let mut service_definition = data_dir.to_owned();
        service_definition.append(name);
        service_definition.append("/");
        service_definition.append(self.protocol_date.as_str());
        service_definition.append("/service-2.json");
        GenerationPaths { botocore_source, module_source, service_definition }
    }
}

/// The Rust module name of a service: its name with each `-` made `_`.
pub open spec fn spec_module_name(service_name: Seq<char>) -> Seq<char> {
    spec_replace_char(service_name, '-', '_')
}

/// The `lib.rs` of the crate of service `service_name`.
pub open spec fn spec_lib_rs_contents(service_name: Seq<char>) -> Seq<char> {
    "\n\t\t#![crate_name = \"rusoto_"@ + spec_module_name(service_name)
        + "\"]\n\t\t#![crate_type = \"lib\"]\n\t\tpub mod "@ + spec_module_name(service_name)
        + ";\n\n\t\textern crate hyper;\n\t\textern crate rusoto_credential;\n\t\textern crate rusoto_core;\n\t\textern crate xml;\n\t"@
}

/// The `Cargo.toml` of the crate of service `service_name` at version `crate_version`.
pub open spec fn spec_cargo_toml_contents(service_name: Seq<char>, crate_version: Seq<char>) -> Seq<
    char,
> {
    "\n[package]\nauthors = [\n    \"Anthony DiMarco <ocramida@gmail.com>\",\n    \"Jimmy Cuadra <jimmy@jimmycuadra.com>\",\n    \"Matthew Mayer <matthewkmayer@gmail.com>\",\n    \"Nikita Pekin <contact@nikitapek.in>\"\n]\n\ndescription = \"AWS SQS\"\ndocumentation = \"http://rusoto.github.io/rusoto/rusoto/index.html\"\nkeywords = [\"AWS\", \"Amazon\"]\nlicense = \"MIT\"\nname = \"rusoto_"@
        + service_name + "\"\nrepository = \"https://github.com/rusoto/rusoto\"\nversion = \""@
        + crate_version
        + "\"\n\n[dependencies]\nhyper = \"0.10.0\"\nhyper-native-tls = \"0.2.1\"\nxml-rs = \"0.3\"\n\n[dependencies.rusoto_core]\npath = \"../../rusoto_core\"\nversion = \"0.22.0\"\n\n[dependencies.rusoto_credential]\npath = \"../../credential\"\nversion = \"0.4.0\"\n\t\t"@
}

/// The Rust module name of a service: its name with each `-` made `_`.
pub fn module_name(service_name: &str) -> (r: String)
    ensures
        r@ == spec_module_name(service_name@),
{
    replace_char(service_name, '-', '_')
}

/// The contents of the `lib.rs` of the crate of service `service_name`.
pub fn lib_rs_contents(service_name: &str) -> (r: String)
    ensures
        r@ == spec_lib_rs_contents(service_name@),
        !r@.contains('-'),
{
    proof {
        lemma_lib_rs_names_module(service_name@);
    }
    let module = module_name(service_name);
    let mut r = "\n\t\t#![crate_name = \"rusoto_".to_owned();
    r.append(module.as_str());
    r.append("\"]\n\t\t#![crate_type = \"lib\"]\n\t\tpub mod ");
    r.append(module.as_str());
    r.append(
        ";\n\n\t\textern crate hyper;\n\t\textern crate rusoto_credential;\n\t\textern crate rusoto_core;\n\t\textern crate xml;\n\t",
    );
    r
}

/// The contents of the `Cargo.toml` of the crate of service `service_name`
/// at version `crate_version`.
pub fn cargo_toml_contents(service_name: &str, crate_version: &str) -> (r: String)
    ensures
        r@ == spec_cargo_toml_contents(service_name@, crate_version@),
{
    let mut r =
        "\n[package]\nauthors = [\n    \"Anthony DiMarco <ocramida@gmail.com>\",\n    \"Jimmy Cuadra <jimmy@jimmycuadra.com>\",\n    \"Matthew Mayer <matthewkmayer@gmail.com>\",\n    \"Nikita Pekin <contact@nikitapek.in>\"\n]\n\ndescription = \"AWS SQS\"\ndocumentation = \"http://rusoto.github.io/rusoto/rusoto/index.html\"\nkeywords = [\"AWS\", \"Amazon\"]\nlicense = \"MIT\"\nname = \"rusoto_".to_owned();
    r.append(service_name);
    r.append("\"\nrepository = \"https://github.com/rusoto/rusoto\"\nversion = \"");
    r.append(crate_version);
    r.append(
        "\"\n\n[dependencies]\nhyper = \"0.10.0\"\nhyper-native-tls = \"0.2.1\"\nxml-rs = \"0.3\"\n\n[dependencies.rusoto_core]\npath = \"../../rusoto_core\"\nversion = \"0.22.0\"\n\n[dependencies.rusoto_credential]\npath = \"../../credential\"\nversion = \"0.4.0\"\n\t\t",
    );
    r
}

/// The path of the `lib.rs` of service `service_name`, relative to the services directory.
pub fn lib_rs_path(service_name: &str) -> (r: String)
    ensures
        r@ == service_name@ + "/src/lib.rs"@,
{
    let mut r = service_name.to_owned();
    r.append("/src/lib.rs");
    r
}

/// The path of the `Cargo.toml` of service `service_name`, relative to the services directory.
pub fn cargo_toml_path(service_name: &str) -> (r: String)
    ensures
        r@ == service_name@ + "/Cargo.toml"@,
{
    let mut r = service_name.to_owned();
    r.append("/Cargo.toml");
    r
}

/// The source directory created for service `service_name`.
pub fn service_source_dir(service_name: &str) -> (r: String)
    ensures
        r@ == "services/"@ + service_name@ + "/src"@,
{
    let mut r = "services/".to_owned();
    r.append(service_name);
    r.append("/src");
    r
}

/// Whether a service of this protocol needs JSON serialization.
pub open spec fn spec_needs_serde(protocol: Seq<char>) -> bool {
    protocol == "json"@ || protocol == "rest-json"@
}

/// Whether a service of this protocol needs JSON serialization: the `json`
/// and `rest-json` protocols do.
pub fn needs_serde(protocol: &str) -> (r: bool)
    ensures
        r == spec_needs_serde(protocol@),
        r == (protocol@ == "json"@ || protocol@ == "rest-json"@),
{
    let p = protocol.to_owned();
    p == "json".to_owned() || p == "rest-json".to_owned()
}

/// Exactly the `json` and `rest-json` protocols need JSON serialization.
pub proof fn lemma_needs_serde_exactly_json_protocols(protocol: Seq<char>)
    ensures
        spec_needs_serde(protocol) <==> (protocol == "json"@ || protocol == "rest-json"@),
        spec_needs_serde("json"@),
        spec_needs_serde("rest-json"@),
{
}

/// The views of a list of strings.
pub open spec fn spec_texts(v: Seq<String>) -> Seq<Seq<char>> {
    v.map_values(|s: String| s@)
}

/// The protocol date to generate from: the last of the service's dates in
/// sorted order, none when there are none.
pub fn latest_protocol_date(dates: &Vec<String>) -> (r: Option<String>)
    ensures
        dates.len() == 0 <==> r is None,
        r matches Some(d) ==> spec_texts(dates@).contains(d@),
        r matches Some(d) ==> forall|i: int|
            0 <= i < dates.len() ==> !spec_lex_less(d@, #[trigger] dates@[i]@),
{
    if dates.len() == 0 {
        return None;
    }
    let mut best: usize = 0;
    let mut best_chars = chars_of(dates[0].as_str());
    let mut i: usize = 1;
    proof {
        lemma_lex_irreflexive(best_chars@);
    }
    while i < dates.len()
        invariant
            1 <= i <= dates.len(),
            best < dates.len(),
            best_chars@ == dates@[best as int]@,
            forall|j: int| 0 <= j < i ==> !spec_lex_less(best_chars@, #[trigger] dates@[j]@),
        decreases dates.len() - i,
    {
        proof {
            lemma_lex_irreflexive(best_chars@);
        }
        let candidate = chars_of(dates[i].as_str());
        if lex_less(&best_chars, &candidate) {
            proof {
                assert forall|j: int| 0 <= j < i + 1 implies !spec_lex_less(
                    candidate@,
                    #[trigger] dates@[j]@,
                ) by {
                    if j < i && spec_lex_less(candidate@, dates@[j]@) {
                        lemma_lex_transitive(best_chars@, candidate@, dates@[j]@);
                    }
                    if j == i {
                        lemma_lex_irreflexive(candidate@);
                    }
                }
            }
            best = i;
            best_chars = candidate;
        }
        i = i + 1;
    }
    let r = dates[best].clone();
    assert(spec_texts(dates@)[best as int] == r@);
    Some(r)
}

/// The module name of a service holds no `-` and is as long as its name.
pub proof fn lemma_module_name_has_no_hyphen(service_name: Seq<char>)
    ensures
        !spec_module_name(service_name).contains('-'),
        spec_module_name(service_name).len() == service_name.len(),
{
    lemma_replace_char_replaces_all(service_name, '-', '_');
}

/// The generated source and the module it is renamed to are different files.
pub proof fn lemma_renamed_source_differs(name: Seq<char>)
    ensures
        spec_botocore_source(name) != spec_module_source(name),
{
    reveal_strlit("_botocore.rs");
    reveal_strlit(".rs");
    assert(spec_botocore_source(name).len() != spec_module_source(name).len());
}

/// Two dates that are each listed and no less than any listed date are the
/// same date: the protocol date chosen depends only on which dates are
/// listed, not on their order.
pub proof fn lemma_latest_date_is_unique(dates: Seq<Seq<char>>, d1: Seq<char>, d2: Seq<char>)
    requires
        dates.contains(d1),
        dates.contains(d2),
        forall|i: int| 0 <= i < dates.len() ==> !spec_lex_less(d1, #[trigger] dates[i]),
        forall|i: int| 0 <= i < dates.len() ==> !spec_lex_less(d2, #[trigger] dates[i]),
    ensures
        d1 == d2,
{
    let i1 = choose|i: int| 0 <= i < dates.len() && dates[i] == d1;
    let i2 = choose|i: int| 0 <= i < dates.len() && dates[i] == d2;
    assert(!spec_lex_less(d1, dates[i2]));
    assert(!spec_lex_less(d2, dates[i1]));
    if d1 != d2 {
        lemma_lex_total(d1, d2);
    }
}

/// The `lib.rs` of a service holds no `-`, and right after
/// `#![crate_name = "rusoto_` it names the service with each `-` made `_`.
pub proof fn lemma_lib_rs_names_module(service_name: Seq<char>)
    ensures
        !spec_lib_rs_contents(service_name).contains('-'),
        ({
            let k = "\n\t\t#![crate_name = \"rusoto_"@.len() as int;
            let named = spec_lib_rs_contents(service_name).subrange(
                k,
                k + service_name.len(),
            );
            &&& k + service_name.len() <= spec_lib_rs_contents(service_name).len()
            &&& named.len() == service_name.len()
            &&& forall|i: int|
                0 <= i < service_name.len() ==> #[trigger] named[i] == (if service_name[i]
                    == '-' {
                    '_'
                } else {
                    service_name[i]
                })
        }),
{
    let p1 = "\n\t\t#![crate_name = \"rusoto_"@;
    let p2 = "\"]\n\t\t#![crate_type = \"lib\"]\n\t\tpub mod "@;
    let p3 = ";\n\n\t\textern crate hyper;\n\t\textern crate rusoto_credential;\n\t\textern crate rusoto_core;\n\t\textern crate xml;\n\t"@;
    reveal_strlit("\n\t\t#![crate_name = \"rusoto_");
    reveal_strlit("\"]\n\t\t#![crate_type = \"lib\"]\n\t\tpub mod ");
    reveal_strlit(
        ";\n\n\t\textern crate hyper;\n\t\textern crate rusoto_credential;\n\t\textern crate rusoto_core;\n\t\textern crate xml;\n\t",
    );
    let m = spec_module_name(service_name);
    lemma_module_name_has_no_hyphen(service_name);
    lemma_replace_char_pointwise(service_name, '-', '_');
    assert(!p1.contains('-'));
    assert(!p2.contains('-'));
    assert(!p3.contains('-'));
    lemma_concat_contains(p1, m, '-');
    lemma_concat_contains(p1 + m, p2, '-');
    lemma_concat_contains(p1 + m + p2, m, '-');
    lemma_concat_contains(p1 + m + p2 + m, p3, '-');
    let c = spec_lib_rs_contents(service_name);
    assert(c == p1 + m + p2 + m + p3);
    let named = c.subrange(p1.len() as int, p1.len() + service_name.len() as int);
    assert forall|i: int| 0 <= i < service_name.len() implies #[trigger] named[i] == (
    if service_name[i] == '-' {
        '_'
    } else {
        service_name[i]
    }) by {
        assert(named[i] == c[p1.len() + i]);
        assert(c[p1.len() + i] == (p1 + m)[p1.len() + i]);
        assert((p1 + m)[p1.len() + i] == m[i]);
    }
}

/// The `Cargo.toml` of a service names the package `rusoto_` and the service
/// name, and holds the requested version right after the repository line:
/// `version = "` followed by the version and a closing quote.
pub proof fn lemma_cargo_toml_names_package(service_name: Seq<char>, crate_version: Seq<char>)
    ensures
        ({
            let c = spec_cargo_toml_contents(service_name, crate_version);
            let k = "\n[package]\nauthors = [\n    \"Anthony DiMarco <ocramida@gmail.com>\",\n    \"Jimmy Cuadra <jimmy@jimmycuadra.com>\",\n    \"Matthew Mayer <matthewkmayer@gmail.com>\",\n    \"Nikita Pekin <contact@nikitapek.in>\"\n]\n\ndescription = \"AWS SQS\"\ndocumentation = \"http://rusoto.github.io/rusoto/rusoto/index.html\"\nkeywords = [\"AWS\", \"Amazon\"]\nlicense = \"MIT\"\nname = \"rusoto_"@.len() as int;
            let line = "\nrepository = \"https://github.com/rusoto/rusoto\"\nversion = \""@;
            let j = k + service_name.len() + 1;
            &&& j + line.len() + crate_version.len() + 2 <= c.len()
            &&& c.subrange(k, k + service_name.len()) == service_name
            &&& c.subrange(k + service_name.len(), j) == "\""@
            &&& c.subrange(j, j + line.len() + crate_version.len() + 2) == line + crate_version
                + "\"\n"@
        }),
{
    let c1 = "\n[package]\nauthors = [\n    \"Anthony DiMarco <ocramida@gmail.com>\",\n    \"Jimmy Cuadra <jimmy@jimmycuadra.com>\",\n    \"Matthew Mayer <matthewkmayer@gmail.com>\",\n    \"Nikita Pekin <contact@nikitapek.in>\"\n]\n\ndescription = \"AWS SQS\"\ndocumentation = \"http://rusoto.github.io/rusoto/rusoto/index.html\"\nkeywords = [\"AWS\", \"Amazon\"]\nlicense = \"MIT\"\nname = \"rusoto_"@;
    let c2 = "\"\nrepository = \"https://github.com/rusoto/rusoto\"\nversion = \""@;
    let c3 = "\"\n\n[dependencies]\nhyper = \"0.10.0\"\nhyper-native-tls = \"0.2.1\"\nxml-rs = \"0.3\"\n\n[dependencies.rusoto_core]\npath = \"../../rusoto_core\"\nversion = \"0.22.0\"\n\n[dependencies.rusoto_credential]\npath = \"../../credential\"\nversion = \"0.4.0\"\n\t\t"@;
    let line = "\nrepository = \"https://github.com/rusoto/rusoto\"\nversion = \""@;
    reveal_strlit("\"\nrepository = \"https://github.com/rusoto/rusoto\"\nversion = \"");
    reveal_strlit("\nrepository = \"https://github.com/rusoto/rusoto\"\nversion = \"");
    reveal_strlit(
        "\"\n\n[dependencies]\nhyper = \"0.10.0\"\nhyper-native-tls = \"0.2.1\"\nxml-rs = \"0.3\"\n\n[dependencies.rusoto_core]\npath = \"../../rusoto_core\"\nversion = \"0.22.0\"\n\n[dependencies.rusoto_credential]\npath = \"../../credential\"\nversion = \"0.4.0\"\n\t\t",
    );
    reveal_strlit("\"");
    reveal_strlit("\"\n");
    let n = service_name;
    let v = crate_version;
    let c = spec_cargo_toml_contents(n, v);
    assert(c == c1 + n + c2 + v + c3);
    assert(c2 =~= "\""@ + line);
    assert(c3.subrange(0, 2) =~= "\"\n"@);
    let k = c1.len() as int;
    let j = k + n.len() + 1;
    assert(c.subrange(k, k + n.len()) =~= n);
    assert(c.subrange(k + n.len(), j) =~= "\""@);
    assert(c.subrange(j, j + line.len() + v.len() + 2) =~= line + v + "\"\n"@);
}

/// Different versions give different `Cargo.toml`s for the same service, and
/// different services give different ones for the same version.
pub proof fn lemma_cargo_toml_distinguishes(
    n1: Seq<char>,
    v1: Seq<char>,
    n2: Seq<char>,
    v2: Seq<char>,
)
    requires
        (n1 == n2 && v1 != v2) || (n1 != n2 && v1 == v2),
    ensures
        spec_cargo_toml_contents(n1, v1) != spec_cargo_toml_contents(n2, v2),
{
    let c1 = spec_cargo_toml_contents(n1, v1);
    let c2 = spec_cargo_toml_contents(n2, v2);
    lemma_cargo_toml_names_package(n1, v1);
    lemma_cargo_toml_names_package(n2, v2);
    let line = "\nrepository = \"https://github.com/rusoto/rusoto\"\nversion = \""@;
    if c1.len() == c2.len() {
        let k = "\n[package]\nauthors = [\n    \"Anthony DiMarco <ocramida@gmail.com>\",\n    \"Jimmy Cuadra <jimmy@jimmycuadra.com>\",\n    \"Matthew Mayer <matthewkmayer@gmail.com>\",\n    \"Nikita Pekin <contact@nikitapek.in>\"\n]\n\ndescription = \"AWS SQS\"\ndocumentation = \"http://rusoto.github.io/rusoto/rusoto/index.html\"\nkeywords = [\"AWS\", \"Amazon\"]\nlicense = \"MIT\"\nname = \"rusoto_"@.len() as int;
        if n1 == n2 {
            assert(v1.len() == v2.len()) by {
                assert(c1 == spec_cargo_toml_contents(n1, v1));
            }
            let j = k + n1.len() + 1;
            let w1 = c1.subrange(j, j + line.len() + v1.len() + 2);
            let w2 = c2.subrange(j, j + line.len() + v2.len() + 2);
            if c1 == c2 {
                assert(w1 == w2);
                assert((line + v1 + "\"\n"@).subrange(line.len() as int, line.len() + v1.len() as int) =~= v1);
                assert((line + v2 + "\"\n"@).subrange(line.len() as int, line.len() + v2.len() as int) =~= v2);
            }
        } else {
            if c1 == c2 {
                assert(n1.len() == n2.len());
                assert(c1.subrange(k, k + n1.len()) == c2.subrange(k, k + n2.len()));
            }
        }
    }
}

/// The service definition path holds the data directory and then the
/// service's name exactly as given; the generated source and the module both
/// start with the service's name.
pub proof fn lemma_paths_hold_service_name(data_dir: Seq<char>, name: Seq<char>, date: Seq<char>)
    ensures
        spec_service_definition(data_dir, name, date).len() >= data_dir.len() + name.len(),
        spec_service_definition(data_dir, name, date).subrange(0, data_dir.len() as int)
            == data_dir,
        spec_service_definition(data_dir, name, date).subrange(
            data_dir.len() as int,
            data_dir.len() + name.len() as int,
        ) == name,
        spec_botocore_source(name).subrange(0, name.len() as int) == name,
        spec_module_source(name).subrange(0, name.len() as int) == name,
{
    let d = spec_service_definition(data_dir, name, date);
    assert(d.subrange(0, data_dir.len() as int) =~= data_dir);
    assert(d.subrange(data_dir.len() as int, data_dir.len() + name.len() as int) =~= name);
    assert(spec_botocore_source(name).subrange(0, name.len() as int) =~= name);
    assert(spec_module_source(name).subrange(0, name.len() as int) =~= name);
}

/// Two different services of the same date under the same data directory
/// read different service definitions.
pub proof fn lemma_service_definitions_differ(
    data_dir: Seq<char>,
    n1: Seq<char>,
    n2: Seq<char>,
    date: Seq<char>,
)
    requires
        n1 != n2,
    ensures
        spec_service_definition(data_dir, n1, date) != spec_service_definition(
            data_dir,
            n2,
            date,
        ),
{
    lemma_paths_hold_service_name(data_dir, n1, date);
    lemma_paths_hold_service_name(data_dir, n2, date);
    let d1 = spec_service_definition(data_dir, n1, date);
    let d2 = spec_service_definition(data_dir, n2, date);
    if d1 == d2 {
        reveal_strlit("/");
        reveal_strlit("/service-2.json");
        assert(d1.len() == data_dir.len() + n1.len() + 1 + date.len() + 15);
        assert(d2.len() == data_dir.len() + n2.len() + 1 + date.len() + 15);
    }
}

} // verus!
