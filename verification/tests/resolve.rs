use starlane::parse::{SpaceErr, Text, Version};
use starlane::point::{
    Point, PointDef, PointSeg, PointSegKind, PointSegQuery, RouteSeg, RouteSegVar, Trace,
    Variable,
};
use starlane::resolve::{
    consume_point_ctx, Binding, Env, PointCtx, PointSegCtx, PointSegVar, PointVar, ResolverErr,
};

fn point(s: &str) -> Point {
    Point::from_str(s).unwrap()
}

fn ctx(s: &str) -> PointCtx {
    consume_point_ctx(s).unwrap()
}

fn var(name: &str) -> Variable {
    Variable { name: name.to_string(), trace: Trace { range_start: 0, range_end: 0 } }
}

fn env(working: Option<&str>, vars: Option<&[(&str, &str)]>) -> Env {
    Env {
        point: working.map(point),
        vars: vars.map(|vars| {
            vars.iter()
                .map(|(name, value)| Binding { name: name.to_string(), value: value.to_string() })
                .collect()
        }),
    }
}

fn fails(message: &str) -> SpaceErr {
    SpaceErr::ParseErrs(message.to_string())
}

#[test]
fn points_may_refer_to_the_working_point() {
    let read = ctx("..:another-app:something");
    assert_eq!(
        read.segments,
        vec![
            PointSegCtx::Pop(Trace { range_start: 0, range_end: 2 }),
            PointSegCtx::Base("another-app".to_string()),
            PointSegCtx::Base("something".to_string()),
        ]
    );
    let read = ctx("GLOBAL::.:mechtrons:..:1.0.0:/dir/f.txt");
    assert_eq!(read.route, RouteSeg::Global);
    assert_eq!(
        read.segments,
        vec![
            PointSegCtx::Working(Trace { range_start: 8, range_end: 9 }),
            PointSegCtx::Base("mechtrons".to_string()),
            PointSegCtx::Pop(Trace { range_start: 20, range_end: 22 }),
            PointSegCtx::Version(Version::from_str("1.0.0").unwrap()),
            PointSegCtx::FilesystemRootDir,
            PointSegCtx::Dir("dir/".to_string()),
            PointSegCtx::File("f.txt".to_string()),
        ]
    );
    assert_eq!(read.to_string(), "GLOBAL::.:mechtrons:..:1.0.0:/dir/f.txt");
    assert!(ctx("ROOT").is_root());
    assert_eq!(ctx("space:base").segments.len(), 2);
    for bad in ["", "...", "space:...", ".x", "space:Base", "space:"] {
        assert_eq!(consume_point_ctx(bad), Err(fails("PointCtx")), "{}", bad);
    }
    assert!(!ctx("space:/dir/f").is_dir());
    assert!(ctx("space:/dir/").is_dir());
    assert!(!ctx("ROOT").is_dir());
}

#[test]
fn working_point_and_way_up_are_followed() {
    let here = env(Some("my-domain:apps:my-app"), None);
    let nowhere = Env::empty();
    let resolve = |text: &str, env: &Env| ctx(text).to_resolved(env).map(|p| p.to_string());
    assert_eq!(resolve(".", &here), Ok("my-domain:apps:my-app".to_string()));
    assert_eq!(
        resolve(".:mechtrons:mechtron", &here),
        Ok("my-domain:apps:my-app:mechtrons:mechtron".to_string())
    );
    assert_eq!(
        resolve("..:another-app:something", &here),
        Ok("my-domain:apps:another-app:something".to_string())
    );
    assert_eq!(resolve("space:..", &here), Ok("my-domain:apps".to_string()));
    assert_eq!(resolve("space:base:..:other", &here), Ok("space:other".to_string()));
    assert_eq!(resolve("HYPER::space:base", &nowhere), Ok("HYPER::space:base".to_string()));
    assert_eq!(resolve("ROOT", &nowhere), Ok("ROOT".to_string()));
    assert_eq!(
        resolve("space:base:1.0.0:/dir/f.txt", &nowhere),
        Ok("space:base:1.0.0:/dir/f.txt".to_string())
    );
    assert_eq!(
        resolve(".:x", &nowhere),
        Err(fails("working point is not available in this context"))
    );
    assert_eq!(
        resolve("..:x", &nowhere),
        Err(fails("cannot pop because working point is not available in this context"))
    );
    assert_eq!(
        resolve("space:base:.", &here),
        Err(fails("working point can only be referenced in the first point segment"))
    );
    assert_eq!(
        resolve("..", &Env::new(Point::root())),
        Err(fails("Too many point pops. working point was: 'ROOT'"))
    );
    assert_eq!(
        resolve("a:b:..:..:..", &nowhere),
        Err(fails("Too many point pops. working point was: ''"))
    );
    // in the first two places the way up starts from the working point anew
    assert_eq!(resolve("..:..:..", &env(Some("space:base"), None)), Ok("ROOT".to_string()));
    assert_eq!(
        resolve("..:..:..:..", &env(Some("space:base"), None)),
        Err(fails("Too many point pops. working point was: 'space:base'"))
    );
    assert_eq!(here.point_or(), Ok(point("my-domain:apps:my-app")));
    assert_eq!(
        nowhere.point_or(),
        Err(fails("working point is not available in this context"))
    );
}

#[test]
fn variables_are_replaced_by_their_values() {
    let users = PointVar {
        route: RouteSegVar::Var(var("route")),
        segments: vec![
            PointSegVar::Space("my-domain".to_string()),
            PointSegVar::Base("users".to_string()),
            PointSegVar::Var(var("user")),
            PointSegVar::FilesystemRootDir,
            PointSegVar::Dir("home/".to_string()),
            PointSegVar::Var(var("file")),
        ],
    };
    let bound = env(None, Some(&[("user", "bob"), ("route", "GLOBAL"), ("file", "f.txt"), ("user", "eve")]));
    let resolved = users.clone().to_resolved(&bound).unwrap();
    assert_eq!(resolved.to_string(), "GLOBAL::my-domain:users:bob:/home/f.txt");
    assert_eq!(
        users.clone().to_resolved_point(&bound).unwrap(),
        point("GLOBAL::my-domain:users:bob:/home/f.txt")
    );
    assert_eq!(
        users.clone().to_resolved(&env(None, Some(&[("user", "bob")]))),
        Err(fails(
            "variable could not be resolved 'route'\nvariable could not be resolved 'file'"
        ))
    );
    assert_eq!(
        users.clone().to_resolved(&Env::empty()),
        Err(fails(
            "variables not available in this context 'route'\nvariables not available in this context 'user'\nvariables not available in this context 'file'"
        ))
    );
    assert_eq!(
        users.clone().to_resolved(&env(None, Some(&[("user", "Bob"), ("route", "HYPER"), ("file", "f")]))),
        Err(fails("PointCtx"))
    );
    assert_eq!(bound.val("user"), Ok("bob".to_string()));
    assert_eq!(bound.val("other"), Err(ResolverErr::NotFound));
    assert_eq!(Env::empty().val("user"), Err(ResolverErr::NotAvailable));

    let relative = PointVar {
        route: RouteSegVar::This,
        segments: vec![
            PointSegVar::Pop(Trace { range_start: 0, range_end: 2 }),
            PointSegVar::Var(var("app")),
            PointSegVar::Var(var("app")),
        ],
    };
    let working = env(Some("space:apps:old"), Some(&[("app", "new")]));
    // the value of a variable in the second place follows without a colon
    assert_eq!(relative.clone().to_resolved(&working), Err(fails("PointCtx")));
    let relative = PointVar {
        route: RouteSegVar::Tag("t".to_string()),
        segments: vec![
            PointSegVar::Pop(Trace { range_start: 0, range_end: 2 }),
            PointSegVar::Base("x".to_string()),
            PointSegVar::Var(var("app")),
        ],
    };
    assert_eq!(
        relative.clone().to_resolved_point(&working).unwrap().to_string(),
        "[t]::space:apps:x:new"
    );
    let root = PointVar { route: RouteSegVar::Var(var("nothing")), segments: vec![] };
    assert_eq!(root.to_resolved(&Env::empty()).unwrap().to_string(), "ROOT");
    let star = PointVar { route: RouteSegVar::Star("s-1".to_string()), segments: vec![] };
    assert_eq!(star.to_resolved(&Env::empty()).unwrap().to_string(), "<<s-1>>::ROOT");
}

#[test]
fn points_collapse_when_nothing_is_left_to_resolve() {
    let plain = PointVar {
        route: RouteSegVar::Hyper,
        segments: vec![
            PointSegVar::Space("space".to_string()),
            PointSegVar::Base("base".to_string()),
        ],
    };
    assert_eq!(plain.clone().to_point(), Ok(point("HYPER::space:base")));
    assert_eq!(plain.clone().to_point_ctx().unwrap().to_point(), Ok(point("HYPER::space:base")));
    assert_eq!(plain.clone().collapse().unwrap().try_into(), Ok(point("HYPER::space:base")));
    assert!(!plain.is_dir());
    let with_var = PointVar {
        route: RouteSegVar::This,
        segments: vec![PointSegVar::Space("space".to_string()), PointSegVar::Var(var("x"))],
    };
    assert_eq!(
        with_var.collapse(),
        Err(fails("variable substitution not available in this context"))
    );
    let route_var = PointVar { route: RouteSegVar::Var(var("r")), segments: vec![] };
    assert_eq!(route_var.collapse(), Err(fails("variables not allowed in this context")));
    let working = PointVar {
        route: RouteSegVar::This,
        segments: vec![PointSegVar::Working(Trace { range_start: 0, range_end: 1 })],
    };
    assert_eq!(
        working.to_point(),
        Err(fails("working point not available in this context"))
    );
    assert_eq!(
        ctx("..:x").collapse(),
        Err(fails("point pop not available in this context"))
    );
    assert_eq!(
        ctx("space:.").to_point(),
        Err(fails("working point not available in this context"))
    );
    let pop = PointSegVar::Pop(Trace { range_start: 0, range_end: 2 });
    assert_eq!(pop.kind(), PointSegKind::Pop);
    assert_eq!(pop.to_string(), "..");
    assert!(!pop.is_normalized());
    assert!(pop.is_filesystem_seg());
    assert!(!pop.is_filesystem_root());
    assert_eq!(pop.try_into(), Err(fails("point pop not available in this context")));
    assert_eq!(PointSegVar::Var(var("v")).to_string(), "${v}");
    assert_eq!(PointSegVar::Var(var("v")).kind(), PointSegKind::Var);
    let dir = PointSegCtx::Dir("d/".to_string());
    assert_eq!(dir.kind(), PointSegKind::Dir);
    assert!(dir.is_normalized() && dir.is_filesystem_seg());
    assert_eq!(dir.clone().into(), PointSegVar::Dir("d/".to_string()));
    assert_eq!(dir.clone().try_into(), Ok(PointSeg::Dir("d/".to_string())));
    assert_eq!(PointSeg::Dir("d/".to_string()).into(), dir);
    assert_eq!(PointSegCtx::Working(Trace { range_start: 0, range_end: 1 }).to_string(), ".");
    assert!(PointSegCtx::FilesystemRootDir.is_filesystem_root());
    let root: PointDef<RouteSeg, PointSegCtx> = PointDef { route: RouteSeg::This, segments: vec![] };
    assert_eq!(root.to_resolved(&Env::empty()), Ok(Point::root()));
}
