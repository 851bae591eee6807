use starlane::actor::ActorKind;
use starlane::address::{
    address, alphanumerichyphen1, domain, host, loweralphanumerichyphen1, parse_address,
    parse_kind, specific as read_specific, version, version_major_minor_patch, zero,
    DatabaseKind, ParseError, ResourceAddress, ResourceAddressKind, ResourceKind,
    ResourceKindParts, Specific as AddressSpecific,
};
use starlane::kind::{
    colon, opt_pattern, pattern, preceded_opt_pattern, specific as kind_specific,
    specific_full_selector, specific_selector as read_specific_selector, specific_sub_types, Db,
    DomainSelector, IsMatch, Kind, OptPattern, Pattern, SkewerSelector, Specific,
    SpecificSelector, SpecificSubTypes, SubTypeDef, Variant, VariantFull, VariantFullSelector,
    VersionSelector,
};
use starlane::parse::{camel_case, domain as read_domain, skewer_case, version as read_version, version_req};
use starlane::parse::{CamelCase, Domain, SkewerCase, SpaceErr, Text, Version, VersionReq};
use starlane::point::{
    Agent, Point, PointSeg, PointSegDelim, PointSegKind, PointSegPairDef, PointSegQuery,
    RouteSeg, RouteSegQuery, RouteSegVar, Trace as VarTrace, Variable,
};
use starlane::util::{CharIterator, Input, MyChars, SliceStr, Span, Tag, Trace};
use std::sync::Arc;

fn create_specific() -> Specific {
    Specific::new(
        Domain::from_str("my-domain.com").unwrap(),
        Domain::from_str("my-domain.com").unwrap(),
        SkewerCase::from_str("product").unwrap(),
        SkewerCase::from_str("variant").unwrap(),
        Version::from_str("1.0.0").unwrap(),
    )
}

fn create_specific_sub_type() -> SpecificSubTypes {
    create_specific().sub(Some(CamelCase::from_str("Blah").unwrap()))
}

fn create_variant_full() -> VariantFull {
    Variant::Artifact.with_specific(Some(create_specific_sub_type()))
}

#[test]
pub fn specific() {
    let specific1 = create_specific();
    let specific2 = create_specific();
    assert_eq!(specific1, specific2);

    let spec1 = create_specific_sub_type();
    let spec2 = create_specific_sub_type();
    assert_eq!(spec1, spec2);
}

#[test]
pub fn variant() {
    let var1 = Variant::Artifact.with_specific(Some(create_specific_sub_type()));
    let var2 = Variant::Artifact.with_specific(Some(create_specific_sub_type()));
    assert_eq!(var1, var2);
}

#[test]
pub fn kind() {
    let kind1 = Kind::Root.with_variant(Some(create_variant_full()));
    let kind2 = Kind::Root.with_variant(Some(create_variant_full()));
    assert_eq!(kind1, kind2);
}

#[test]
pub fn specific_selector() {
    let specific = create_specific();
    let selector = SpecificSelector {
        provider: DomainSelector::Any,
        vendor: DomainSelector::Matches(Domain::from_str("my-domain.com").unwrap()),
        product: SkewerSelector::Any,
        variant: SkewerSelector::Matches(SkewerCase::from_str("variant").unwrap()),
        version: VersionSelector::Matches(VersionReq::from_str("^1.0.0").unwrap()),
    };

    assert!(selector.is_match(&specific));

    let specific = specific.to_full();
    let selector = selector.to_full();

    assert!(selector.is_match(&specific));

    let specific = specific.with_sub(Some(CamelCase::from_str("Zophis").unwrap()));
    assert!(!selector.is_match(&specific));
    let selector = selector.with_sub(OptPattern::Any);
    assert!(selector.is_match(&specific));

    let selector = SpecificSelector {
        provider: DomainSelector::Never,
        vendor: DomainSelector::Matches(Domain::from_str("my-domain.com").unwrap()),
        product: SkewerSelector::Any,
        variant: SkewerSelector::Matches(SkewerCase::from_str("variant").unwrap()),
        version: VersionSelector::Matches(VersionReq::from_str("^1.0.0").unwrap()),
    };

    let specific = create_specific();

    assert!(!selector.is_match(&specific));
}

#[test]
pub fn variant_selector() {
    let variant = create_variant_full();
    let selector = VariantFullSelector {
        parent: SubTypeDef {
            part: Pattern::Matches(Variant::Artifact),
            sub: OptPattern::Absent,
            r_type: OptPattern::Absent,
        },
        child: OptPattern::Absent,
    };

    assert!(!selector.is_match(&variant));

    let selector = VariantFullSelector {
        parent: SubTypeDef {
            part: Pattern::Matches(Variant::Artifact),
            sub: OptPattern::Absent,
            r_type: OptPattern::Absent,
        },
        child: OptPattern::Any,
    };

    assert!(selector.is_match(&variant));
}

#[test]
pub fn test_retain_route() {
    let users = Point::from_str("HYPER::users").unwrap();
    let less = users.push("less").unwrap();

    assert_eq!("HYPER::users:less", less.to_string().as_str())
}

#[test]
fn it_works() {
    let result = 2 + 2;
    assert_eq!(result, 4);
}

#[test]
pub fn util_test() {
    let s = SliceStr::new("abc123".to_string());
    assert_eq!(6, s.len());

    let s = s.slice(0, 3);
    assert_eq!(3, s.len());
    assert_eq!("abc", s.as_str());

    let s = SliceStr::new("abc123".to_string());
    assert_eq!("123", s.slice_from(3).as_str());
    assert_eq!("abc", s.slice_to(3).as_str());
}

#[test]
pub fn main_test() {}

#[test]
pub fn lib_test() {}

#[test]
pub fn test_address_kind() {
    assert_eq!(
        ResourceAddressKind::from_str(
            "space:sub-space:app:database<Database<Relational<mysql.org:mysql:innodb:7.0.1>>>"
        ),
        Ok(ResourceAddressKind {
            address: ResourceAddress::from_str("space:sub-space:app:database::<Database>")
                .unwrap(),
            kind: ResourceKind::Database(DatabaseKind::Relational(AddressSpecific {
                vendor: "mysql.org".to_string(),
                product: "mysql".to_string(),
                variant: "innodb".to_string(),
                version: "7.0.1".to_string()
            }))
        })
    );
}

#[test]
pub fn test_kind() {
    assert_eq!(
        parse_kind("<Database<Relational<mysql.org:mysql:innodb:7.0.1>>>"),
        Ok((
            "",
            ResourceKindParts {
                resource_type: "Database".to_string(),
                kind: Option::Some("Relational".to_string()),
                specific: Option::Some(AddressSpecific {
                    vendor: "mysql.org".to_string(),
                    product: "mysql".to_string(),
                    variant: "innodb".to_string(),
                    version: "7.0.1".to_string()
                })
            }
        ))
    );

    assert_eq!(
        parse_kind("<Database<Relational>>"),
        Ok((
            "",
            ResourceKindParts {
                resource_type: "Database".to_string(),
                kind: Option::Some("Relational".to_string()),
                specific: Option::None
            }
        ))
    );

    assert_eq!(
        parse_kind("<Database>"),
        Ok((
            "",
            ResourceKindParts {
                resource_type: "Database".to_string(),
                kind: Option::None,
                specific: Option::None
            }
        ))
    );
}

#[test]
pub fn address_test_specific() {
    assert_eq!(
        read_specific("mysql.org:mysql:innodb:7.0.1"),
        Ok((
            "",
            AddressSpecific {
                vendor: "mysql.org".to_string(),
                product: "mysql".to_string(),
                variant: "innodb".to_string(),
                version: "7.0.1".to_string()
            }
        ))
    );
}

#[test]
pub fn test_version() {
    assert_eq!(
        version("1.24.3-beta|on and on"),
        Ok(("|on and on", "1.24.3-beta".to_string()))
    );

    assert_eq!(
        version("1.2.3~dogar and kazon"),
        Ok(("~dogar and kazon", "1.2.3".to_string()))
    );
}

#[test]
pub fn test_version_major_minor_patch() {
    assert_eq!(
        version_major_minor_patch("55.2.3-beta"),
        Ok(("-beta", "55.2.3".to_string()))
    );

    assert_eq!(
        version_major_minor_patch("1.2.3"),
        Ok(("", "1.2.3".to_string()))
    );
}

#[test]
pub fn test_domain() {
    assert_eq!(domain("mysql.org"), Ok(("", "mysql.org".to_string())));

    assert_eq!(domain("hello.com"), Ok(("", "hello.com".to_string())));

    assert_eq!(
        domain("abc.hello.com"),
        Ok(("", "abc.hello.com".to_string()))
    );

    assert_eq!(
        domain("abc.hello.com:the-zozo:"),
        Ok((":the-zozo:", "abc.hello.com".to_string()))
    );
}

fn fails(context: &str) -> ParseError {
    ParseError { context: context.to_string() }
}

#[test]
fn address_readers_stop_where_they_must() {
    assert_eq!(domain("mysql"), Err(fails("domain")));
    assert_eq!(domain("a.b."), Err(fails("domain")));
    assert_eq!(domain("Abc.com"), Err(fails("domain")));
    assert_eq!(host("abc.hello.com"), Ok(("", "abc.hello.com".to_string())));
    assert_eq!(host("Abc-1.d3f"), Ok(("3f", "Abc-1.d".to_string())));
    assert_eq!(host("localhost:80"), Ok((":80", "localhost".to_string())));
    assert_eq!(host("a.b."), Ok((".b.", "a".to_string())));
    assert_eq!(host(".com"), Err(fails("host")));
    assert_eq!(alphanumerichyphen1("ab-3_x"), Ok(("_x", "ab-3".to_string())));
    assert_eq!(alphanumerichyphen1("_"), Err(fails("alphanumerichyphen1")));
    assert_eq!(loweralphanumerichyphen1("ab-3Cx"), Ok(("Cx", "ab-3".to_string())));
    assert_eq!(loweralphanumerichyphen1(""), Err(fails("loweralphanumerichyphen1")));
    assert_eq!(address("a.b/c:d-1<x"), Ok(("<x", "a.b/c:d-1".to_string())));
    assert_eq!(address("<"), Err(fails("address")));
    assert_eq!(zero("01"), Ok(("1", "0".to_string())));
    assert_eq!(zero("1"), Err(fails("zero")));
    assert_eq!(version("1.2.3-"), Ok(("-", "1.2.3".to_string())));
    assert_eq!(version("1.2"), Err(fails("version")));
    assert_eq!(version_major_minor_patch("1..3"), Err(fails("version_major_minor_patch")));
    assert_eq!(read_specific("mysql.org:mysql:innodb"), Err(fails("specific")));
    assert_eq!(parse_kind("<Database<Relational<bad>>>"), Err(fails("kind")));
    assert_eq!(parse_kind("<Database>>"), Ok((">", ResourceKindParts {
        resource_type: "Database".to_string(),
        kind: None,
        specific: None,
    })));
    assert_eq!(parse_kind("Database"), Err(fails("kind")));
    let (left, (path, parts)) = parse_address("space:app<App> more").unwrap();
    assert_eq!((left, path.as_str(), parts.resource_type.as_str()), (" more", "space:app", "App"));
    assert_eq!(parse_address("space:app"), Err(fails("address")));
}

#[test]
fn kinds_of_resource_from_their_parts() {
    assert!(ResourceKindParts::from_str("<App>").is_ok());
    assert_eq!(
        ResourceKindParts::from_str("<App> x").unwrap_err().to_string(),
        "ResourceKindParts ERROR: could not parse extra: ' x' in string '<App> x'"
    );
    let parts = |t: &str, k: Option<&str>| ResourceKindParts {
        resource_type: t.to_string(),
        kind: k.map(|k| k.to_string()),
        specific: None,
    };
    assert_eq!(ResourceKind::try_from(parts("App", None)), Ok(ResourceKind::App));
    assert_eq!(ResourceKind::try_from(parts("FileSystem", None)), Ok(ResourceKind::FileSystem));
    assert_eq!(
        ResourceKind::try_from(parts("Database", Some("Native"))),
        Ok(ResourceKind::Database(DatabaseKind::Native))
    );
    assert!(ResourceKind::try_from(parts("Database", None)).is_err());
    assert!(ResourceKind::try_from(parts("Database", Some("Relational"))).is_err());
    assert!(ResourceKind::try_from(parts("App", Some("Native"))).is_err());
    assert!(ResourceKind::try_from(parts("Nothing", None)).is_err());
    assert_eq!(ResourceKind::Database(DatabaseKind::Native).resource_type(), "Database");
    let address = ResourceAddress::from_str("space:app::<App>").unwrap();
    assert_eq!((address.path.as_str(), address.resource_type.as_str()), ("space:app", "App"));
    assert_eq!(address.to_string(), "space:app::<App>");
    assert!(ResourceAddress::from_str("space:app:<App>").is_err());
    assert!(ResourceAddress::from_str("space:app::<App>x").is_err());
    assert!(ResourceAddress::from_str("::<App>").is_err());
    assert!(ResourceAddressKind::from_str("space:app<App>x").is_err());
    assert!(ResourceAddressKind::from_str("space app<App>").is_err());
    let specific = AddressSpecific {
        vendor: "mysql.org".to_string(),
        product: "mysql".to_string(),
        variant: "innodb".to_string(),
        version: "7.0.1".to_string(),
    };
    assert_eq!(specific.to_string(), "mysql.org:mysql:innodb:7.0.1");
}

#[test]
fn names_are_read_by_their_case() {
    assert!(CamelCase::from_str("MySub").is_ok());
    assert_eq!(CamelCase::from_str("mySub"), Err(SpaceErr::ParseErrs("CamelCase".to_string())));
    assert!(CamelCase::from_str("My-Sub").is_err());
    assert!(CamelCase::from_str("").is_err());
    assert!(SkewerCase::from_str("my-sub2").is_ok());
    assert!(SkewerCase::from_str("My").is_err());
    assert!(SkewerCase::from_str("2my").is_err());
    assert!(Domain::from_str("my-domain.io").is_ok());
    assert!(Domain::from_str("my_domain").is_err());
    assert_eq!(Domain::from_str("a.b").unwrap().to_string(), "a.b");
    assert_eq!(Domain::from_str("a.b").unwrap(), Domain::from_str("a.b").unwrap());
    assert!(Domain::from_str("a.b").unwrap() != Domain::from_str("a.c").unwrap());
    assert_eq!(Domain::from_str("a.b").unwrap().clone().as_str(), "a.b");
}

#[test]
fn versions_are_read_by_semver() {
    assert!(Version::from_str("1.0.0").is_ok());
    assert!(Version::from_str("1.0.0-alpha.1").is_ok());
    assert_eq!(Version::from_str("1.0"), Err(SpaceErr::ParseErrs("Version".to_string())));
    assert!(Version::from_str("1.0.01").is_err());
    assert!(VersionReq::from_str(">=1.2, <2").is_ok());
    assert_eq!(VersionReq::from_str("@1"), Err(SpaceErr::ParseErrs("VersionReq".to_string())));
    let req = VersionReq::from_str("^1.2.0").unwrap();
    assert!(req.is_match(&Version::from_str("1.4.7").unwrap()));
    assert!(!req.is_match(&Version::from_str("2.0.0").unwrap()));
    assert!(!req.is_match(&Version::from_str("1.1.9").unwrap()));
    assert!(!req.is_match(&Version { version: "one".to_string() }));
    let selector = VersionSelector::Matches(VersionReq::from_str("^1.0.0").unwrap());
    assert_eq!(selector.to_string(), "^1.0.0");
}

#[test]
fn kinds_and_their_variants() {
    let rel = CamelCase::from_str("Rel").unwrap();
    assert_eq!(Variant::from(&Kind::Db, &rel), Ok(Variant::Db(Db::Rel)));
    assert_eq!(
        Variant::from(&Kind::Db, &CamelCase::from_str("Graph").unwrap()),
        Err(SpaceErr::ParseErrs("Db".to_string()))
    );
    assert_eq!(
        Variant::from(&Kind::Star, &rel).unwrap_err().to_string(),
        "kind 'Star' does not have a variant 'Rel' "
    );
    assert_eq!(Kind::default(), Kind::Root);
    assert_eq!(Kind::FileSys.to_string(), "FileSys");
    assert_eq!(Variant::Db(Db::Rel).to_string(), "Db");
    assert_eq!(Db::Rel.to_string(), "Rel");
    let sub = Kind::Mechtron.to_sub_types();
    assert_eq!((sub.part, sub.sub, sub.r_type), (Kind::Mechtron, None, None));
    let typed = create_specific().sub_type(None, Some(CamelCase::from_str("T").unwrap()));
    assert_eq!(typed.r_type, Some(CamelCase::from_str("T").unwrap()));
    let typed = typed.with_type(None);
    assert_eq!(typed.r_type, None);
    assert_eq!(Pattern::<Domain>::Never.to_string(), "!");
    assert_eq!(OptPattern::<Domain>::Any.to_string(), "*");
    assert_eq!(OptPattern::Matches(Domain::from_str("a.b").unwrap()).to_string(), "a.b");
    assert!(OptPattern::<Domain>::Absent.is_match(&None));
    assert!(!OptPattern::Matches(rel.clone()).is_match(&None));
    assert!(OptPattern::Matches(rel.clone()).is_match(&Some(rel)));
}

fn point(s: &str) -> Point {
    Point::from_str(s).unwrap()
}

#[test]
fn points_are_read_and_written() {
    for text in [
        "ROOT",
        "GLOBAL::ROOT",
        "localhost",
        "space.com:base:other-base",
        "GLOBAL::executor",
        "LOCAL::star",
        "REMOTE::endpoint",
        "HYPER::users:less",
        "[tag]::space:base",
        "<<star-1>>::space",
        "my-domain.com::space:base",
        "space:base:1.0.0",
        "space:base:1.0.0-beta:/",
        "space:base:1.0.0:/dir/sub/file.txt",
        "space:/file_1.txt",
        "space:/dir/",
    ] {
        assert_eq!(point(text).to_string(), text, "{}", text);
    }
    let p = point("my-domain.com::space:base:1.2.3:/dir/file.txt");
    assert_eq!(p.route, RouteSeg::Domain("my-domain.com".to_string()));
    assert_eq!(
        p.segments,
        vec![
            PointSeg::Space("space".to_string()),
            PointSeg::Base("base".to_string()),
            PointSeg::Version(Version::from_str("1.2.3").unwrap()),
            PointSeg::FilesystemRootDir,
            PointSeg::Dir("dir/".to_string()),
            PointSeg::File("file.txt".to_string()),
        ]
    );
    assert_eq!(p.postfix(), "space:base:1.2.3:/dir/file.txt");
    assert_eq!(p.to_string_impl(false), "space:base:1.2.3:/dir/file.txt");
    assert_eq!(p.to_safe_filename(), "my-domain.com::space:base:1.2.3:/dir/file.txt");
    assert_eq!(point("space::base").route, RouteSeg::Domain("space".to_string()));
    for bad in ["", "Space", "space:", "space:::base", "space:Base", "space:/dir//", "GLOBAL::",
        "space:/a/b c", "space:base:/f.txt/x:y", "[tag]:space", "space:base:1.2"] {
        assert_eq!(Point::from_str(bad), Err(SpaceErr::ParseErrs("Point".to_string())), "{}", bad);
    }
}

#[test]
fn points_know_their_place() {
    assert_eq!(Point::central().to_string(), "GLOBAL::central");
    assert_eq!(Point::global_executor().to_string(), "GLOBAL::executor");
    assert_eq!(Point::global_logger().to_string(), "GLOBAL::logger");
    assert_eq!(Point::global_registry().to_string(), "GLOBAL::registry");
    assert_eq!(Point::local_portal().to_string(), "LOCAL::portal");
    assert_eq!(Point::local_star().to_string(), "LOCAL::star");
    assert_eq!(Point::local_hypergate().to_string(), "LOCAL::hypergate");
    assert_eq!(Point::local_endpoint().to_string(), "LOCAL::endpoint");
    assert_eq!(Point::remote_endpoint().to_string(), "REMOTE::endpoint");
    assert_eq!(Point::hyperuser().to_string(), "hyperspace:users:hyperuser");
    assert_eq!(Point::hyper_userbase().to_string(), "hyperspace:users");
    assert_eq!(Point::anonymous().to_string(), "hyperspace:users:anonymous");
    assert_eq!(Point::hyperuser().to_agent(), Agent::HyperUser);
    assert_eq!(Point::anonymous().to_agent(), Agent::Anonymous);
    assert_eq!(point("space:user").to_agent(), Agent::Point(point("space:user")));
    assert!(Point::central().is_global());
    assert!(!Point::local_star().is_global());
    assert!(Point::root().is_local_root());
    assert!(Point::root().is_root());
    assert!(!Point::root_with_route(RouteSeg::Hyper).is_local_root());
    assert!(!point("space").is_root());

    let base = point("space:base");
    let file = point("space:base:1.0.0:/dir/file.txt");
    assert!(base.is_parent_of(&file));
    assert!(base.is_parent_of(&base));
    assert!(!file.is_parent_of(&base));
    assert!(!point("GLOBAL::space:base").is_parent_of(&file));
    assert!(!point("space:other").is_parent_of(&file));
    assert_eq!(base.is_parent(&file), Ok(()));
    assert_eq!(base.is_parent(&base), Err(()));
    assert_eq!(point("HYPER::space:base").is_parent(&file), Err(()));
    assert_eq!(point("space:bass").is_parent(&file), Err(()));
    assert!(file.same(&file.clone()));
    assert!(!file.same(&base));

    assert_eq!(file.parent().unwrap().to_string(), "space:base:1.0.0:/dir/");
    assert_eq!(Point::root().parent(), None);
    assert_eq!(file.last_segment(), Some(PointSeg::File("file.txt".to_string())));
    assert_eq!(Point::root().last_segment(), None);
    assert_eq!(file.pop().to_string(), "space:base:1.0.0:/dir/");
    assert_eq!(Point::root().pop(), Point::root());
    assert!(file.is_normalized());
    assert_eq!(file.clone().normalize(), Ok(file.clone()));

    assert_eq!(file.clone().to_bundle().unwrap().to_string(), "space:base:1.0.0");
    assert_eq!(
        base.clone().to_bundle().unwrap_err().to_string(),
        "Point does not contain a bundle"
    );
    assert!(file.has_bundle());
    assert!(!base.has_bundle());
    assert!(file.has_filesystem());
    assert!(!base.has_filesystem());
    assert!(file.is_artifact_bundle_part());
    assert!(file.is_artifact());
    assert!(!point("space:/file.txt").is_artifact());
    assert!(!point("space:1.0.0:/dir/").is_artifact());
    assert!(point("space:base:1.0.0").is_artifact_bundle());
    assert!(!file.is_artifact_bundle());
    assert!(!Point::root().is_artifact_bundle());
    assert_eq!(file.filepath(), Some("/dir/file.txt".to_string()));
    assert_eq!(base.filepath(), None);
    assert!(file.is_filesystem_ref());
    assert!(!base.is_filesystem_ref());
    assert_eq!(
        file.clone().truncate(PointSegKind::Version).unwrap().to_string(),
        "space:base:1.0.0"
    );
    assert_eq!(
        base.clone().truncate(PointSegKind::Dir),
        Err(SpaceErr::Status {
            status: 404,
            message: "Point segment kind: Dir not found in point: space:base".to_string()
        })
    );
}

#[test]
fn points_grow_by_segments() {
    let root = Point::root_with_route(RouteSeg::Global);
    let space = root.push("space").unwrap();
    assert_eq!(space.to_string(), "GLOBAL::space");
    let version = space.push("base").unwrap().push("1.0.0").unwrap();
    assert_eq!(version.to_string(), "GLOBAL::space:base:1.0.0");
    let fs = version.push(":/").unwrap();
    assert_eq!(fs.to_string(), "GLOBAL::space:base:1.0.0:/");
    assert_eq!(version.push("/").unwrap(), fs);
    assert_eq!(version.push("//").unwrap_err(), SpaceErr::ParseErrs("Point".to_string()));
    let dir = fs.push("dir/").unwrap();
    let file = dir.push("file.txt").unwrap();
    assert_eq!(file.to_string(), "GLOBAL::space:base:1.0.0:/dir/file.txt");
    assert_eq!(file.push("more").unwrap_err().to_string(), "cannot append to a file");
    assert_eq!(space.push("Bad").unwrap_err(), SpaceErr::ParseErrs("Point".to_string()));
    assert_eq!(
        point("space:/dir/").push_file("f.txt".to_string()).unwrap().to_string(),
        "space:/dir/f.txt"
    );
    assert!(point("space").push_file("f.txt".to_string()).is_ok());
    let pushed = space.push_segment(PointSeg::Base("base".to_string())).unwrap();
    assert_eq!(pushed.to_string(), "GLOBAL::space:base");
    assert_eq!(
        space.push_segment(PointSeg::Dir("dir/".to_string())).unwrap_err().to_string(),
        "cannot push a FileSystem segment onto a point until after the FileSystemRoot segment has been pushed"
    );
    assert_eq!(
        fs.push_segment(PointSeg::File("f".to_string())).unwrap().to_string(),
        "GLOBAL::space:base:1.0.0:/f"
    );
    assert!(fs.push_segment(PointSeg::Base("x".to_string())).is_ok());
}

#[test]
fn segments_and_routes_tell_what_they_are() {
    assert_eq!(PointSegKind::Base.preceding_delim(false), ":");
    assert_eq!(PointSegKind::Dir.preceding_delim(false), "");
    assert_eq!(PointSegKind::Pop.preceding_delim(false), ":");
    assert_eq!(PointSegKind::Pop.preceding_delim(true), "");
    assert_eq!(PointSegKind::Var.preceding_delim(true), "");
    assert_eq!(PointSegKind::Working.preceding_delim(false), ":");
    assert!(PointSegKind::Space.is_normalized());
    assert!(!PointSegKind::Pop.is_normalized());
    assert!(!PointSegKind::Working.is_normalized());
    assert!(!PointSegKind::Var.is_normalized());
    assert!(PointSegKind::Version.is_version());
    assert!(PointSegKind::File.is_file());
    assert!(PointSegKind::Dir.is_dir());
    assert!(!PointSegKind::File.is_dir());
    assert!(PointSegKind::FilesystemRootDir.is_filesystem_seg());
    assert!(!PointSegKind::Version.is_filesystem_seg());
    assert!(PointSegKind::Version.is_mesh_seg());
    assert!(!PointSegKind::File.is_mesh_seg());
    assert_eq!(PointSegKind::FilesystemRootDir.to_string(), "FilesystemRootDir");
    let file = PointSeg::File("f".to_string());
    assert!(file.is_file() && file.is_normalized() && file.is_filesystem_seg());
    assert!(!file.is_version());
    assert!(!file.is_filesystem_root());
    assert!(PointSeg::FilesystemRootDir.is_filesystem_root());
    assert_eq!(file.kind(), PointSegKind::File);
    assert_eq!(PointSeg::Base("b".to_string()).preceding_delim(false), ":");
    assert_eq!(PointSeg::Root.to_string(), "");
    assert!(file.same(&PointSeg::File("f".to_string())));
    assert!(!file.same(&PointSeg::Dir("f".to_string())));
    assert_eq!(PointSegDelim::Mesh.to_string(), ":");
    assert_eq!(PointSegDelim::File.to_string(), "/");
    assert_eq!(PointSegDelim::Empty.to_string(), "");
    let pair = PointSegPairDef::new(PointSegDelim::Mesh, PointSeg::Base("b".to_string()));
    assert_eq!(pair.to_string(), ":b");
    assert!(RouteSeg::This.is_local());
    assert!(!RouteSeg::Local.is_local());
    assert!(RouteSeg::Global.is_global());
    assert_eq!(RouteSeg::This.to_string(), ".");
    assert_eq!(RouteSeg::Tag("t".to_string()).to_string(), "[t]");
    assert_eq!(RouteSeg::Star("s".to_string()).to_string(), "<<s>>");
    assert!(RouteSeg::Tag("t".to_string()).same(&RouteSeg::Tag("t".to_string())));
    assert!(!RouteSeg::Tag("t".to_string()).same(&RouteSeg::Star("t".to_string())));
    let var = RouteSegVar::Var(Variable {
        name: "user".to_string(),
        trace: VarTrace { range_start: 0, range_end: 7 },
    });
    assert_eq!(var.to_string(), "${user}");
    assert!(!var.is_local() && !var.is_global());
    assert_eq!(
        var.try_into(),
        Err(SpaceErr::ParseErrs("variables not allowed in this context".to_string()))
    );
    assert_eq!(RouteSegVar::Hyper.try_into(), Ok(RouteSeg::Hyper));
    assert_eq!(RouteSeg::Domain("d".to_string()).into(), RouteSegVar::Domain("d".to_string()));
    assert_eq!(RouteSegVar::Remote.to_string(), "REMOTE");
}

#[test]
fn slices_of_text_keep_their_place() {
    let text = Arc::new("héllo wörld".to_string());
    let whole = SliceStr::from_arc(text.clone());
    assert_eq!(whole.len(), 11);
    assert_eq!(whole.location_offset(), 0);
    let word = whole.slice(6, 11);
    assert_eq!(word.as_str(), "wörld");
    assert_eq!(word.to_string(), "wörld");
    assert_eq!(Input::len(&word), 5);
    assert_eq!(word.location_offset(), 6);
    assert_eq!(SliceStr::from(text, 1, 4).as_str(), "éllo");
    let (after, before) = whole.take_split(5);
    assert_eq!((before.as_str(), after.as_str()), ("héllo", " wörld"));
    assert_eq!(word.char_at(1), Some('ö'));
    assert_eq!(word.char_at(5), None);
    let trace = Trace::new(&word, 7u8);
    assert_eq!((trace.range.clone(), trace.w), (6..11, 7));
    assert_eq!(Trace::<u8>::from_range(2..3, "x").unwrap(), "x");
    let mut chars = MyChars::new(whole.slice(0, 2));
    assert_eq!((chars.next(), chars.next(), chars.next()), (Some('h'), Some('é'), None));
    let mut places = CharIterator::new(word.slice(3, 5));
    assert_eq!(
        (places.next(), places.next(), places.next()),
        (Some((0, 'l')), Some((1, 'd')), None)
    );
    assert_eq!(Span::new(3).input, 3);
    assert_eq!(Tag::SegSep.as_str(), ":");
    assert_eq!(Tag::DoubleQuote.as_str(), "\"");
    assert_eq!(Tag::BackTic.as_str(), "`");
    assert_eq!(Tag::Minus.as_str(), "-");
}

#[test]
fn kinds_of_actor_by_name() {
    assert_eq!(ActorKind::from_str("Stateful"), Ok(ActorKind::Stateful));
    assert_eq!(ActorKind::from_str("Stateless").unwrap().as_kind(), ActorKind::Stateless);
    assert_eq!(
        ActorKind::from_str("Other").unwrap_err().to_string(),
        "could not find ActorKind: Other"
    );
    assert_eq!(ActorKind::Stateful.to_string(), "Stateful");
}

#[test]
pub fn test_my_sub() {
    let sub = opt_pattern(camel_case, "MySub", 0).unwrap().0;
    assert_eq!(sub, OptPattern::Matches(CamelCase::from_str("MySub").unwrap()));

    let sub = preceded_opt_pattern(colon, camel_case, ":MySub", 0).0;
    assert_eq!(sub, OptPattern::Matches(CamelCase::from_str("MySub").unwrap()));
}

#[test]
pub fn kind_test_specific() {
    let _specific = kind_specific("my-domain.io:vendor.io:product:variant:1.0.0", 0).unwrap();
}

#[test]
pub fn test_specific_selector() {
    let _selector = read_specific_selector("my-domain.io:*:product:variant:1.0.0", 0).unwrap();
}

#[test]
pub fn test_specific_sub_types() {
    let specific = specific_sub_types("my-domain.io:vendor.io:product:variant:1.0.0:Sub:Type", 0)
        .unwrap()
        .0;
    assert_eq!(specific.sub, Some(CamelCase::from_str("Sub").unwrap()));
    assert_eq!(specific.r_type, Some(CamelCase::from_str("Type").unwrap()));
}

#[test]
pub fn test_specific_full_selector() {
    let selector = specific_full_selector("my-domain.io:*:product:variant:1.0.0", 0).unwrap().0;
    assert_eq!(selector.sub, OptPattern::Absent);
    assert_eq!(selector.part.variant.to_string(), "variant".to_string());

    let selector =
        specific_full_selector("my-domain.io:*:product:variant:1.0.0:MySub", 0).unwrap().0;

    assert_eq!(selector.sub, OptPattern::Matches(CamelCase::from_str("MySub").unwrap()));
}

#[test]
fn readers_say_where_they_stopped() {
    assert_eq!(camel_case("MySub:x", 0), Some((CamelCase::from_str("MySub").unwrap(), 5)));
    assert_eq!(camel_case("a:MySub", 2).unwrap().1, 7);
    assert_eq!(camel_case("mySub", 0), None);
    assert_eq!(camel_case("MySub", 5), None);
    assert_eq!(skewer_case("my-sub2:X", 0).unwrap().1, 7);
    assert_eq!(skewer_case("-my", 0), None);
    assert_eq!(read_domain("my-domain.io:x", 0).unwrap().1, 12);
    assert_eq!(read_version("1.2.3-beta.1+b:x", 0).unwrap().1, 14);
    assert_eq!(read_version("1.2:x", 0), None);
    assert_eq!(read_version("", 0), None);
    assert_eq!(version_req(">=1.2, <2:x", 0).unwrap().1, 9);
    assert_eq!(version_req("@", 0), None);
    assert_eq!(colon(":", 0), Some(1));
    assert_eq!(colon("x:", 0), None);
    assert_eq!(pattern(read_domain, "*:x", 0), Some((Pattern::Any, 1)));
    assert_eq!(pattern(read_domain, "!:x", 0), Some((Pattern::Never, 1)));
    assert_eq!(pattern(read_domain, "A", 0), None);
    assert_eq!(opt_pattern(camel_case, "!", 0), Some((OptPattern::Absent, 1)));
    assert_eq!(preceded_opt_pattern(colon, camel_case, ":*", 0), (OptPattern::Any, 2));
    assert_eq!(preceded_opt_pattern(colon, camel_case, ":x", 0), (OptPattern::Absent, 0));
    assert_eq!(preceded_opt_pattern(colon, camel_case, "X", 0), (OptPattern::Absent, 0));
    assert_eq!(kind_specific("my-domain.io:vendor.io:product:variant", 0), None);
    assert_eq!(kind_specific("my-domain.io:vendor.io:Product:variant:1.0.0", 0), None);
    let (selector, end) = read_specific_selector("!:a.b:*:v-1:^1.2:Rest", 0).unwrap();
    assert_eq!(end, 16);
    assert_eq!(selector.provider, Pattern::Never);
    assert_eq!(selector.product, Pattern::Any);
    assert_eq!(selector.version, Pattern::Matches(VersionReq::from_str("^1.2").unwrap()));
    assert_eq!(read_specific_selector("a.b:a.b:p:v:@", 0), None);
    let (full, end) = specific_full_selector("a.b:a.b:p:v:*:*:!:more", 0).unwrap();
    assert_eq!((full.sub, full.r_type, end), (OptPattern::Any, OptPattern::Absent, 17));
    let (typed, end) = specific_sub_types("a.b:a.b:p:v:1.0.0:Sub:notype", 0).unwrap();
    assert_eq!((typed.sub.is_some(), typed.r_type, end), (true, None, 21));
}
