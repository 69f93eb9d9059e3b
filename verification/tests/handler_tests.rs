use simple_api_demo::handlers::app_server;
use simple_api_demo::handlers::main_server;
use simple_api_demo::handlers::{answer, answer_at, Answer, Handler, JsonBody, JsonResponse};
use simple_api_demo::config::Config;
use simple_api_demo::server::{ServerManager, ServerPlan};

fn plans() -> (ServerPlan, ServerPlan) {
    let manager = ServerManager::new(Config::from_env(None, None, None).unwrap());
    (manager.create_main_server(), manager.create_app_server())
}

fn get(plan: &ServerPlan, path: &str) -> Answer {
    answer(plan.handler_for(path).expect("route"))
}

fn get_json(plan: &ServerPlan, path: &str) -> JsonResponse {
    match get(plan, path) {
        Answer::Json(response) => response,
        Answer::Text(_) => panic!("text answer on {}", path),
    }
}

fn close_to_now(stamp: &str) -> bool {
    let parsed = chrono::DateTime::parse_from_rfc3339(stamp).unwrap();
    let age = chrono::Utc::now().signed_duration_since(parsed).num_seconds();
    parsed.offset().local_minus_utc() == 0 && (0..5).contains(&age)
}

#[test]
fn test_main_server_hello() {
    let response = main_server::hello();
    assert_eq!(response.status, 200);
}

#[test]
fn test_app_server_root() {
    let response = app_server::root();
    assert_eq!(response.status, 200);
}

#[test]
fn test_app_server_public_route() {
    let response = app_server::public_route();
    assert_eq!(response.status, 200);
}

#[test]
fn test_app_server_private_route() {
    let response = app_server::private_route();
    assert_eq!(response.status, 200);
}

#[test]
fn test_main_server_hello_endpoint() {
    let (main, _) = plans();

    match get(&main, "/") {
        Answer::Text(response) => {
            assert_eq!(response.status, 200);
            assert_eq!(response.body, "Hello world!");
        }
        Answer::Json(_) => panic!("json answer"),
    }

    match get(&main, "/health") {
        Answer::Text(response) => assert_eq!(response.status, 200),
        Answer::Json(_) => panic!("json answer"),
    }
}

#[test]
fn test_app_server_endpoints() {
    let (_, app) = plans();

    let response = get_json(&app, "/");
    assert_eq!(response.status, 200);
    match response.body {
        JsonBody::Status(body) => {
            assert_eq!(body.status, "ok");
            assert_eq!(body.service, "simple-api-demo");
            assert!(!body.version.is_empty());
        }
        JsonBody::Notice(_) => panic!("notice on /"),
    }

    let response = get_json(&app, "/public");
    assert_eq!(response.status, 200);
    match response.body {
        JsonBody::Notice(body) => {
            assert_eq!(body.message, "public route");
            assert_eq!(body.access, "public");
            assert!(close_to_now(&body.timestamp));
            assert!(body.warning.is_none());
        }
        JsonBody::Status(_) => panic!("status on /public"),
    }

    let response = get_json(&app, "/private");
    assert_eq!(response.status, 200);
    match response.body {
        JsonBody::Notice(body) => {
            assert_eq!(body.message, "private and protected route");
            assert_eq!(body.access, "private");
            assert!(close_to_now(&body.timestamp));
            assert_eq!(
                body.warning.as_deref(),
                Some("This route should require authentication in production")
            );
        }
        JsonBody::Status(_) => panic!("status on /private"),
    }
}

#[test]
fn test_app_server_content_types() {
    let (_, app) = plans();
    assert!(get_json(&app, "/").content_type.contains("application/json"));
    assert!(get_json(&app, "/public").content_type.contains("application/json"));
}

#[test]
fn test_main_server_content_type() {
    let (main, _) = plans();
    match get(&main, "/") {
        Answer::Text(response) => assert!(response.content_type.contains("text/plain")),
        Answer::Json(_) => panic!("json answer"),
    }
}

#[test]
fn hello_is_exact() {
    let response = main_server::hello();
    assert_eq!(response.status, 200);
    assert_eq!(response.content_type, "text/plain; charset=utf-8");
    assert_eq!(response.body, "Hello world!");
}

#[test]
fn root_and_health_are_identical_on_both_listeners() {
    let (main, app) = plans();
    assert_eq!(format!("{:?}", get(&main, "/")), format!("{:?}", get(&main, "/health")));
    assert_eq!(format!("{:?}", get(&app, "/")), format!("{:?}", get(&app, "/health")));
    assert_eq!(main.handler_for("/"), Some(Handler::Hello));
    assert_eq!(main.handler_for("/health"), Some(Handler::Hello));
    assert_eq!(app.handler_for("/"), Some(Handler::Root));
    assert_eq!(app.handler_for("/health"), Some(Handler::Root));
}

#[test]
fn unknown_paths_have_no_handler() {
    let (main, app) = plans();
    assert_eq!(main.handler_for("/public"), None);
    assert_eq!(main.handler_for(""), None);
    assert_eq!(main.handler_for("/health/"), None);
    assert_eq!(app.handler_for("/secret"), None);
    assert_eq!(app.handler_for("/public"), Some(Handler::PublicRoute));
    assert_eq!(app.handler_for("/private"), Some(Handler::PrivateRoute));
}

#[test]
fn stamped_answers_carry_the_given_time() {
    let stamp = "2024-05-06T07:08:09.123456789+00:00";
    let public = app_server::public_route_at(stamp.to_string());
    assert_eq!(public.status, 200);
    assert_eq!(public.content_type, "application/json");
    match public.body {
        JsonBody::Notice(body) => {
            assert_eq!(body.message, "public route");
            assert_eq!(body.access, "public");
            assert_eq!(body.timestamp, stamp);
            assert_eq!(body.warning, None);
        }
        JsonBody::Status(_) => panic!("status body"),
    }
    match answer_at(Handler::PrivateRoute, stamp.to_string()) {
        Answer::Json(response) => match response.body {
            JsonBody::Notice(body) => {
                assert_eq!(body.access, "private");
                assert_eq!(body.timestamp, stamp);
                assert!(!body.warning.unwrap().is_empty());
            }
            JsonBody::Status(_) => panic!("status body"),
        },
        Answer::Text(_) => panic!("text answer"),
    }
    match answer_at(Handler::Hello, stamp.to_string()) {
        Answer::Text(response) => assert_eq!(response.body, "Hello world!"),
        Answer::Json(_) => panic!("json answer"),
    }
}

#[test]
fn root_reports_the_version() {
    match app_server::root().body {
        JsonBody::Status(body) => {
            assert_eq!(body.version, app_server::VERSION);
            assert_eq!(body.version, "0.1.0");
        }
        JsonBody::Notice(_) => panic!("notice body"),
    }
}

fn pairs(fields: Vec<simple_api_demo::json::Field>) -> Vec<(String, String)> {
    fields.into_iter().map(|f| (f.name, f.value)).collect()
}

fn pair(name: &str, value: &str) -> (String, String) {
    (name.to_string(), value.to_string())
}

#[test]
fn status_report_has_its_three_members() {
    assert_eq!(
        pairs(app_server::root().body.fields()),
        vec![pair("status", "ok"), pair("service", "simple-api-demo"), pair("version", "0.1.0")]
    );
}

#[test]
fn only_the_private_route_has_a_warning_member() {
    let public = pairs(app_server::public_route_at("T".to_string()).body.fields());
    assert_eq!(
        public,
        vec![pair("message", "public route"), pair("access", "public"), pair("timestamp", "T")]
    );
    assert!(public.iter().all(|(name, _)| name != "warning"));

    let private = pairs(app_server::private_route_at("T".to_string()).body.fields());
    assert_eq!(
        private,
        vec![
            pair("message", "private and protected route"),
            pair("access", "private"),
            pair("timestamp", "T"),
            pair("warning", "This route should require authentication in production"),
        ]
    );
}

#[test]
fn answer_now_is_the_answer_at_its_own_stamp() {
    let now = answer(Handler::PublicRoute);
    let stamp = match &now {
        Answer::Json(response) => match &response.body {
            JsonBody::Notice(body) => body.timestamp.clone(),
            JsonBody::Status(_) => panic!("status body"),
        },
        Answer::Text(_) => panic!("text answer"),
    };
    assert!(close_to_now(&stamp));
    assert_eq!(format!("{:?}", now), format!("{:?}", answer_at(Handler::PublicRoute, stamp)));
    assert_eq!(
        format!("{:?}", answer(Handler::Root)),
        format!("{:?}", answer_at(Handler::Root, "whenever".to_string()))
    );
}
