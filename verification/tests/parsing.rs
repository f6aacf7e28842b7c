//! End-to-end tests of the parser through its public entry points.

use data_parser::records::planet::parse_planet;
use data_parser::{
    str_to_char_vec, validate, validate_blocks, Date, Decimal, ErrorKind, Fleet, Object, Step,
    Tribute,
};

#[test]
fn will_fail_for_empty_input() {
    assert!(validate("").is_err())
}

#[test]
fn can_parse_varied_input() {
    let data = r#"
// my comment

planet MyPlanet
	attributes a1 a2 a3
	description `This is a "special" planet`
	description `	It can have a complete description`
	spaceport `And also a spaceport!`
	shipyard "Some Ships"
	shipyard "Also Those Ships"
	outfitter "Basic Outifts"
	outfitter "Advanced Outfits"
	bribe 0.01
	security 0.5
	tribute 1000
		threshold 3000
		fleet "Impressive Fleet" 18

start
	system "my system"
	planet "this planet"
    date 01 07 2020
	set "my license"
	account
		credits 5000
		score 100
		mortgage Mortgage
			principal 33333
			interest 0.005
            term 365
"#;
    let parsed = validate(data);
    assert!(parsed.is_ok());
}

#[test]
fn can_parse_planet() {
    let data = r#"planet MyPlanet
	attributes a1 a2 a3
	description `This is a "special" planet`
	description `	It can have a complete description`
	spaceport `And also a spaceport!`
	shipyard "Some Ships"
	shipyard "Also Those Ships"
	outfitter "Basic Outifts"
	outfitter "Advanced Outfits"
	bribe 0.01
	security 0.5
	tribute 1000
		threshold 3000
		fleet "Impressive Fleet" 18
"#;

    let v = str_to_char_vec(data);
    let parsed = parse_planet(data, &v, 0);
    let planet = match parsed {
        Step::Hit(n, planet) => {
            assert_eq!(n, data.chars().count());
            planet
        }
        _ => panic!("planet did not parse"),
    };

    assert_eq!(planet.name, "MyPlanet");
    assert_eq!(planet.attributes, vec!["a1", "a2", "a3"]);
    assert_eq!(
        planet
            .description
            .into_iter()
            .map(String::from)
            .collect::<Vec<_>>()
            .join("\n"),
        String::from(
            r#"This is a "special" planet
	It can have a complete description"#
        )
    );
    assert_eq!(
        planet
            .spaceport
            .into_iter()
            .map(String::from)
            .collect::<Vec<_>>()
            .join("\n"),
        String::from("And also a spaceport!")
    );
    assert_eq!(planet.shipyard, vec!["Some Ships", "Also Those Ships"]);
    assert_eq!(planet.outfitter, vec!["Basic Outifts", "Advanced Outfits"]);
    assert_eq!(planet.bribe, Some(Decimal::new(0, 1, 2)));
    assert_eq!(planet.security, Some(Decimal::new(0, 5, 1)));
    assert_eq!(
        planet.tribute,
        Some(Tribute {
            threshold: 3000,
            value: 1000,
            fleet: Fleet {
                kind: "Impressive Fleet".to_string(),
                count: 18,
            }
        })
    )
}

#[test]
fn minimal_planet_fields_and_defaults() {
    let data = "planet MyPlanet\n\tdescription \"A small moon\"\n\tspaceport \"Tiny dock\"\n\tbribe 0.01\n\tsecurity 0.5\n";
    let objs = validate(data).expect("well-formed planet");
    assert_eq!(objs.len(), 1);
    match &objs[0] {
        Object::Planet(p) => {
            assert_eq!(p.name, "MyPlanet");
            assert_eq!(p.description, vec!["A small moon"]);
            assert_eq!(p.spaceport, vec!["Tiny dock"]);
            assert_eq!(p.bribe, Some(Decimal::new(0, 1, 2)));
            assert_eq!(p.security, Some(Decimal::new(0, 5, 1)));
            assert_eq!(p.tribute, None);
            assert!(p.attributes.is_empty());
            assert!(p.shipyard.is_empty());
            assert!(p.outfitter.is_empty());
        }
        other => panic!("expected a planet, got {:?}", other),
    }
}

#[test]
fn sibling_field_order_is_irrelevant() {
    let a = "planet MyPlanet\n\tdescription \"A small moon\"\n\tspaceport \"Tiny dock\"\n\tbribe 0.01\n\tsecurity 0.5\n";
    let b = "planet MyPlanet\n\tdescription \"A small moon\"\n\tspaceport \"Tiny dock\"\n\tsecurity 0.5\n\tbribe 0.01\n";
    let oa = validate(a).expect("first ordering parses");
    let ob = validate(b).expect("second ordering parses");
    assert_eq!(oa, ob);
}

#[test]
fn three_space_indent_is_rejected() {
    let data = "planet MyPlanet\n\tdescription \"A small moon\"\n   bribe 0.01\n";
    let err = validate(data).expect_err("three spaces are no indentation unit");
    assert_eq!(err.kind, ErrorKind::UnrecognizedTopLevelConstruct);
}

#[test]
fn batch_mode_reports_first_failing_block() {
    let data = "planet Alpha\n\tsecurity 0.5\n\nplanet Beta\n\tdescription `unterminated\n";
    let report = validate_blocks(data);
    assert_eq!(report.total, 2);
    assert_eq!(report.ok, 1);
    let (index, err) = report.first_failure.expect("second block fails");
    assert_eq!(index, 1);
    assert_eq!(err.kind, ErrorKind::IncompleteAfterCommit);
}

#[test]
fn date_is_read_as_day_month_year() {
    // Regression pin: the source order is day month year, normalized to
    // a (year, month, day) record.
    let data = "start\n\tsystem \"s\"\n\tplanet \"p\"\n\tdate 01 07 2020\n\tset \"x\"\n\taccount\n\t\tcredits 5000\n\t\tscore 100\n\t\tmortgage Mortgage\n\t\t\tprincipal 33333\n\t\t\tinterest 0.005\n\t\t\tterm 365\n";
    let objs = validate(data).expect("well-formed start record");
    assert_eq!(objs.len(), 1);
    match &objs[0] {
        Object::Start(s) => {
            assert_eq!(
                s.date,
                Date {
                    year: 2020,
                    month: 7,
                    day: 1
                }
            );
            assert_eq!(s.system, "s");
            assert_eq!(s.planet, "p");
            assert_eq!(s.set, "x");
            assert_eq!(s.account.credits, 5000);
            assert_eq!(s.account.score, 100);
            assert_eq!(s.account.mortgage.principal, 33333);
            assert_eq!(s.account.mortgage.interest, Decimal::new(0, 5, 3));
            assert_eq!(s.account.mortgage.term, 365);
        }
        other => panic!("expected a start record, got {:?}", other),
    }
}

#[test]
fn missing_required_field_is_reported() {
    // The tribute block requires a threshold; omitting it names the
    // record kind and the field.
    let data = "planet MyPlanet\n\ttribute 1000\n\t\tfleet \"Some Fleet\" 18\n";
    let err = validate(data).expect_err("threshold is mandatory");
    assert_eq!(err.kind, ErrorKind::MissingRequiredField);
    assert_eq!(err.field.as_deref(), Some("threshold"));
    assert!(err
        .context
        .contains(&data_parser::RecordKind::Tribute));
}

#[test]
fn missing_start_field_is_reported() {
    let data = "start\n\tplanet \"p\"\n\tdate 01 07 2020\n\tset \"x\"\n\taccount\n\t\tcredits 5000\n\t\tscore 100\n\t\tmortgage Mortgage\n\t\t\tprincipal 33333\n\t\t\tinterest 0.005\n\t\t\tterm 365\n";
    let err = validate(data).expect_err("system is mandatory");
    assert_eq!(err.kind, ErrorKind::MissingRequiredField);
    assert_eq!(err.field.as_deref(), Some("system"));
}

#[test]
fn tab_and_four_spaces_parse_identically() {
    let a = "planet MyPlanet\n\tbribe 0.01\n";
    let b = "planet MyPlanet\n    bribe 0.01\n";
    let oa = validate(a).expect("tab indentation parses");
    let ob = validate(b).expect("four-space indentation parses");
    assert_eq!(oa, ob);
}

#[test]
fn parsing_twice_yields_identical_objects() {
    let data = "planet MyPlanet\n\tdescription \"A small moon\"\n\tbribe 0.01\n";
    let first = validate(data).expect("parses");
    let second = validate(data).expect("parses");
    assert_eq!(first, second);
}

#[test]
fn parse_swallows_diagnostics() {
    let bad = "planet MyPlanet\n\tdescription `unterminated\n";
    assert!(validate(bad).is_err());
    assert!(data_parser::parse(bad).is_empty());
    let good = "planet MyPlanet\n\tbribe 0.01\n";
    assert_eq!(data_parser::parse(good).len(), 1);
}

#[test]
fn galaxy_requires_position() {
    let good = "galaxy \"Milky Way\"\n\tpos -10.5 20\n\tsprite \"galaxy\"\n";
    let objs = validate(good).expect("well-formed galaxy");
    match &objs[0] {
        Object::Galaxy(g) => {
            assert_eq!(g.name, "Milky Way");
            assert_eq!(
                g.pos.x,
                Decimal {
                    negative: true,
                    int_part: 10,
                    frac_part: 5,
                    frac_len: 1
                }
            );
            assert_eq!(g.pos.y, Decimal::whole(20));
            assert_eq!(g.sprite.as_deref(), Some("galaxy"));
        }
        other => panic!("expected a galaxy, got {:?}", other),
    }
    let bad = "galaxy \"Milky Way\"\n\tsprite \"galaxy\"\n";
    let err = validate(bad).expect_err("pos is mandatory");
    assert_eq!(err.kind, ErrorKind::MissingRequiredField);
    assert_eq!(err.field.as_deref(), Some("pos"));
}

#[test]
fn numeric_overflow_is_a_conversion_fault() {
    // A term beyond its width is a fatal conversion fault, not a
    // mismatch.
    let data = "start\n\tsystem \"s\"\n\tplanet \"p\"\n\tdate 01 07 2020\n\tset \"x\"\n\taccount\n\t\tcredits 5000\n\t\tscore 100\n\t\tmortgage Mortgage\n\t\t\tprincipal 33333\n\t\t\tinterest 0.005\n\t\t\tterm 70000\n";
    let err = validate(data).expect_err("term does not fit");
    assert_eq!(err.kind, ErrorKind::NumericConversionFault);
}

#[test]
fn unterminated_quote_is_incomplete_after_commit() {
    let data = "planet MyPlanet\n\tdescription \"no closing quote\n";
    let err = validate(data).expect_err("the opening quote commits");
    assert_eq!(err.kind, ErrorKind::IncompleteAfterCommit);
    assert!(err.context.contains(&data_parser::RecordKind::Planet));
}

#[test]
fn can_parse_effect() {
    let data = r#"effect "power up"
    sprite "effect/power_up"
        "no repeat"
        "frame rate" 50
    sound "power_up"
    "lifetime" 10
    "random angle" 10
    "random spin" 10
    "random velocity" 1.
    "velocity scale" 1.
"#;

    let v = str_to_char_vec(data);
    let parsed = data_parser::records::effect::parse_effect(data, &v, 0);
    match parsed {
        Step::Hit(n, effect) => {
            assert_eq!(n, data.chars().count());
            assert_eq!(effect.name, "power up");
        }
        other => panic!("effect did not parse: {:?}", other),
    }
}

#[test]
fn can_parse_outfit() {
    let data = r#"outfit "My Little Engine"
    category "Engines"
    "cost" 20000
    thumbnail "outfit/little engines"
    "mass" 20
    "outfit space" -20
    "engine capacity" -20
    "turn" 100
    "turning energy" .2
    "turning heat" .5
    "thrust" 4.0
    "thrusting energy" .5
    "thrusting heat" .5
    "flare sprite" "effect/flare/v"
        "frame rate" 1.2
    "flare sound" "little"
    description `It's a little engine that could`
"#;

    let v = str_to_char_vec(data);
    let parsed = data_parser::records::outfit::parse_outfit(data, &v, 0);
    match parsed {
        Step::Hit(n, engine) => {
            assert_eq!(n, data.chars().count());
            assert_eq!(engine.name, "My Little Engine");
        }
        other => panic!("outfit did not parse: {:?}", other),
    }
}

#[test]
fn outfit_values_are_exact() {
    let data = "outfit \"My Little Engine\"\n    category \"Engines\"\n    \"cost\" 20000\n    \"mass\" 20\n    \"turning energy\" .2\n    \"flare sprite\" \"effect/flare/v\"\n        \"frame rate\" 1.2\n    description `It's a little engine that could`\n";
    let objs = validate(data).expect("well-formed outfit");
    assert_eq!(objs.len(), 1);
    match &objs[0] {
        Object::Outfit(o) => {
            assert_eq!(o.name, "My Little Engine");
            assert_eq!(o.category.as_deref(), Some("Engines"));
            assert_eq!(o.cost, 20000);
            assert_eq!(o.mass, Decimal::whole(20));
            assert_eq!(o.turning_energy, Some(Decimal::new(0, 2, 1)));
            assert_eq!(
                o.flare_sprite,
                Some(data_parser::Sprite::Sprite {
                    name: "effect/flare/v".to_string(),
                    frame_time: None,
                    delay: None,
                    random_start_frame: false,
                    no_repeat: false,
                    frame_rate: Some(Decimal::new(1, 2, 1)),
                })
            );
            assert_eq!(o.description, vec!["It's a little engine that could"]);
            assert_eq!(o.weapon, None);
        }
        other => panic!("expected an outfit, got {:?}", other),
    }
}

#[test]
fn effect_requires_sprite() {
    let data = "effect \"power up\"\n\tsound \"power_up\"\n";
    let err = validate(data).expect_err("sprite is mandatory");
    assert_eq!(err.kind, ErrorKind::MissingRequiredField);
    assert_eq!(err.field.as_deref(), Some("sprite"));
    assert!(err.context.contains(&data_parser::RecordKind::Effect));
}

#[test]
fn weapon_block_is_read_inside_outfit() {
    let data = "outfit \"Pea Shooter\"\n\t\"cost\" 100\n\tweapon\n\t\tsprite \"projectile/pea\"\n\t\t\"velocity\" 12.5\n\t\t\"lifetime\" 40\n\t\t\"hit effect\" \"pea hit\" 3\n\t\tstream\n";
    let objs = validate(data).expect("well-formed outfit with weapon");
    match &objs[0] {
        Object::Outfit(o) => {
            let w = o.weapon.as_ref().expect("weapon block present");
            assert_eq!(
                w.sprite,
                Some(data_parser::Sprite::Simple("projectile/pea".to_string()))
            );
            assert_eq!(w.velocity, Some(Decimal::new(12, 5, 1)));
            assert_eq!(w.lifetime, Some(Decimal::whole(40)));
            let hit = w.hit_effect.as_ref().expect("hit effect present");
            assert_eq!(hit.name, "pea hit");
            assert_eq!(hit.count, Some(3));
            assert!(w.stream);
            assert!(!w.cluster);
        }
        other => panic!("expected an outfit, got {:?}", other),
    }
}

#[test]
fn nested_system_objects_keep_source_order() {
    // Three positional objects at depth one; the middle one holds two
    // children at depth two.
    let data = "system Sol\n\tpos 10 -20.5\n\tgovernment \"Republic\"\n\thabitable 625\n\tlink Alpha\n\tlink Beta\n\tobject Mercury\n\t\tperiod 88\n\tobject Terra\n\t\tperiod 365.25\n\t\tobject Luna\n\t\t\tperiod 27.3\n\t\tobject Station\n\t\t\tperiod 5\n\tobject Mars\n\t\tperiod 687\n";
    let objs = validate(data).expect("well-formed system");
    assert_eq!(objs.len(), 1);
    match &objs[0] {
        Object::System(sys) => {
            assert_eq!(sys.name, "Sol");
            assert_eq!(sys.pos.x, Decimal::whole(10));
            assert_eq!(sys.government, "Republic");
            assert_eq!(sys.links, vec!["Alpha", "Beta"]);
            assert_eq!(sys.objects.len(), 3);
            assert_eq!(sys.objects[0].name.as_deref(), Some("Mercury"));
            assert_eq!(sys.objects[1].name.as_deref(), Some("Terra"));
            assert_eq!(sys.objects[2].name.as_deref(), Some("Mars"));
            assert!(sys.objects[0].objects.is_empty());
            assert!(sys.objects[2].objects.is_empty());
            let terra = &sys.objects[1];
            assert_eq!(terra.period, Decimal::new(365, 25, 2));
            assert_eq!(terra.objects.len(), 2);
            assert_eq!(terra.objects[0].name.as_deref(), Some("Luna"));
            assert_eq!(terra.objects[1].name.as_deref(), Some("Station"));
        }
        other => panic!("expected a system, got {:?}", other),
    }
}

#[test]
fn system_object_requires_period() {
    let data = "system Sol\n\tpos 10 20\n\tgovernment \"Republic\"\n\thabitable 625\n\tobject Mercury\n\t\tdistance 0.39\n";
    let err = validate(data).expect_err("period is mandatory");
    assert_eq!(err.kind, ErrorKind::MissingRequiredField);
    assert_eq!(err.field.as_deref(), Some("period"));
    assert!(err
        .context
        .contains(&data_parser::RecordKind::SystemObject));
}
