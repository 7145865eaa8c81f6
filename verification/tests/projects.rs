use agent_server::clock::Timestamp;
use agent_server::projects::{
    create_project, get_projects, repository_response, root, ApiError,
    CreateProjectPayload, GetProjectsParams, Project, ProjectRepository, RepositoryError,
    BAD_REQUEST, INTERNAL_SERVER_ERROR,
};

fn now() -> Timestamp {
    let t = chrono::Utc::now();
    Timestamp { secs: t.timestamp(), nanos: t.timestamp_subsec_nanos() }
}

#[derive(Clone)]
struct MockProjectRepository;

impl ProjectRepository for MockProjectRepository {
    fn create_project(&mut self, name: &str, description: Option<&str>) -> Result<Project, RepositoryError> {
        Ok(Project {
            id: uuid::Uuid::new_v4().as_u128(),
            name: name.to_string(),
            description: description.unwrap_or("").to_string(),
            created_at: now(),
            updated_at: now(),
        })
    }

    fn get_projects(
        &mut self,
        _page: Option<i64>,
        page_size: Option<i64>,
    ) -> Result<Vec<Project>, RepositoryError> {
        let page_size = page_size.unwrap_or(10) as usize;
        let mut projects = Vec::new();
        for i in 0..page_size {
            projects.push(Project {
                id: uuid::Uuid::new_v4().as_u128(),
                name: format!("Project {}", i + 1),
                description: format!("Description for Project {}", i + 1),
                created_at: now(),
                updated_at: now(),
            });
        }
        Ok(projects)
    }
}

struct FailingRepository;

impl ProjectRepository for FailingRepository {
    fn create_project(&mut self, _name: &str, _description: Option<&str>) -> Result<Project, RepositoryError> {
        Err(RepositoryError { message: "connection refused".to_string() })
    }

    fn get_projects(
        &mut self,
        _page: Option<i64>,
        _page_size: Option<i64>,
    ) -> Result<Vec<Project>, RepositoryError> {
        Err(RepositoryError { message: "connection refused".to_string() })
    }
}

#[test]
fn test_create_project() {
    let mut repo = MockProjectRepository;
    let payload = CreateProjectPayload {
        name: "Test Project".to_string(),
        description: Some("A test project description".to_string()),
    };
    let response = create_project(&mut repo, &payload);
    assert!(response.is_ok());
    let created_project = response.unwrap();
    assert_eq!(created_project.name, "Test Project");
    assert_eq!(created_project.description, "A test project description".to_string());
}

#[test]
fn test_create_project_with_empty_name() {
    let mut repo = MockProjectRepository;
    let payload = CreateProjectPayload {
        name: "".to_string(),
        description: Some("A test project description".to_string()),
    };
    let response = create_project(&mut repo, &payload);
    assert!(response.is_err());
    let error = response.unwrap_err();
    assert_eq!(error.status, BAD_REQUEST);
}

#[test]
fn test_create_project_with_empty_description() {
    let mut repo = MockProjectRepository;
    let payload = CreateProjectPayload {
        name: "Test Project".to_string(),
        description: Some("".to_string()),
    };
    let response = create_project(&mut repo, &payload);
    assert!(response.is_err());
    let error = response.unwrap_err();
    assert_eq!(error.status, BAD_REQUEST);
}

#[test]
fn test_get_projects() {
    let mut repo = MockProjectRepository;
    let params = GetProjectsParams { page: 1, page_size: 10 };
    let response = get_projects(&mut repo, &params);
    assert!(response.is_ok());
    let projects = response.unwrap();
    assert_eq!(projects.len(), 10);
    for (i, project) in projects.iter().enumerate() {
        assert_eq!(project.name, format!("Project {}", i + 1));
        assert_eq!(project.description, format!("Description for Project {}", i + 1));
    }
}

#[test]
fn test_get_projects_with_zero_page_size() {
    let mut repo = MockProjectRepository;
    let params = GetProjectsParams { page: 1, page_size: 0 };
    let response = get_projects(&mut repo, &params);
    assert!(response.is_ok());
    let projects = response.unwrap();
    assert!(projects.is_empty());
}

#[test]
fn test_create_project_payload() {
    let payload = CreateProjectPayload {
        name: "Test Project".to_string(),
        description: Some("A test project".to_string()),
    };
    assert_eq!(payload.name, "Test Project");
    assert_eq!(payload.description, Some("A test project".to_string()));

    let payload_no_desc = CreateProjectPayload { name: "Another Project".to_string(), description: None };
    assert_eq!(payload_no_desc.name, "Another Project");
    assert_eq!(payload_no_desc.description, None);
}

#[test]
fn test_get_projects_params() {
    let params = GetProjectsParams { page: 1, page_size: 10 };
    assert_eq!(params.page, 1);
    assert_eq!(params.page_size, 10);
}

#[test]
fn test_project_creation() {
    let id = uuid::Uuid::new_v4().as_u128();
    let name = "New Project".to_string();
    let description = "A newly created project".to_string();
    let created_at = now();
    let updated_at = now();

    let project = Project {
        id,
        name: name.clone(),
        description: description.clone(),
        created_at,
        updated_at,
    };

    assert_eq!(project.id, id);
    assert_eq!(project.name, name);
    assert_eq!(project.description, description);
    assert_eq!(project.created_at, created_at);
    assert_eq!(project.updated_at, updated_at);
}

#[test]
fn blank_name_is_rejected_with_its_message() {
    let payload = CreateProjectPayload {
        name: " \t\u{3000}\n".to_string(),
        description: Some("fine".to_string()),
    };
    let error = create_project(&mut MockProjectRepository, &payload).unwrap_err();
    assert_eq!(error.status, 400);
    assert_eq!(error.body, "Project name cannot be empty");
}

#[test]
fn name_is_checked_before_description() {
    let payload = CreateProjectPayload { name: "  ".to_string(), description: None };
    let error = create_project(&mut MockProjectRepository, &payload).unwrap_err();
    assert_eq!(error.body, "Project name cannot be empty");
}

#[test]
fn blank_description_is_rejected_with_its_message() {
    let payload = CreateProjectPayload {
        name: "Named".to_string(),
        description: Some("\u{a0}\u{2029} ".to_string()),
    };
    let error = create_project(&mut MockProjectRepository, &payload).unwrap_err();
    assert_eq!(error.status, 400);
    assert_eq!(error.body, "Project description cannot be empty");
}

#[test]
fn missing_description_is_passed_on() {
    let payload = CreateProjectPayload { name: "Named".to_string(), description: None };
    let project = create_project(&mut MockProjectRepository, &payload).unwrap();
    assert_eq!(project.name, "Named");
    assert_eq!(project.description, "");
}

#[test]
fn padded_name_is_accepted_as_given() {
    let payload = CreateProjectPayload {
        name: "  Padded  ".to_string(),
        description: Some(" text ".to_string()),
    };
    let project = create_project(&mut MockProjectRepository, &payload).unwrap();
    assert_eq!(project.name, "  Padded  ");
    assert_eq!(project.description, " text ");
}

#[test]
fn failing_repository_gives_bare_internal_error() {
    let payload = CreateProjectPayload {
        name: "Named".to_string(),
        description: Some("Described".to_string()),
    };
    let error = create_project(&mut FailingRepository, &payload).unwrap_err();
    assert_eq!(error.status, INTERNAL_SERVER_ERROR);
    assert_eq!(error.body, "");
    let error = get_projects(&mut FailingRepository, &GetProjectsParams { page: 1, page_size: 10 })
        .unwrap_err();
    assert_eq!(error.status, 500);
    assert_eq!(error.body, "");
}

struct Recording(Vec<(Option<i64>, Option<i64>)>);

impl ProjectRepository for Recording {
    fn create_project(&mut self, _name: &str, _description: Option<&str>) -> Result<Project, RepositoryError> {
        Err(RepositoryError { message: "unused".to_string() })
    }

    fn get_projects(&mut self, page: Option<i64>, page_size: Option<i64>) -> Result<Vec<Project>, RepositoryError> {
        self.0.push((page, page_size));
        Ok(Vec::new())
    }
}

#[test]
fn page_numbers_are_passed_on_unchanged() {
    let mut repo = Recording(Vec::new());
    let big = i64::from(i32::MAX) + 1;
    assert!(get_projects(&mut repo, &GetProjectsParams { page: 3, page_size: big }).unwrap().is_empty());
    assert!(get_projects(&mut repo, &GetProjectsParams { page: -1, page_size: 0 }).unwrap().is_empty());
    assert_eq!(repo.0, vec![(Some(3), Some(big)), (Some(-1), Some(0))]);
}

#[test]
fn repository_answer_is_passed_on() {
    let ok: Result<u32, RepositoryError> = Ok(7);
    assert_eq!(repository_response(ok).unwrap(), 7);
    let err: Result<u32, RepositoryError> = Err(RepositoryError { message: "x".to_string() });
    let e: ApiError = repository_response(err).unwrap_err();
    assert_eq!((e.status, e.body.as_str()), (500, ""));
}

#[test]
fn root_greets() {
    assert_eq!(root(), "Hello, World!");
}

#[test]
fn create_project_payload_debug_output() {
    let payload = CreateProjectPayload {
        name: "Debug Test".to_string(),
        description: Some("Testing debug output".to_string()),
    };
    assert_eq!(
        format!("{:?}", payload),
        "CreateProjectPayload { name: \"Debug Test\", description: Some(\"Testing debug output\") }"
    );
    let payload_no_desc = CreateProjectPayload { name: "No Desc".to_string(), description: None };
    assert_eq!(
        format!("{:?}", payload_no_desc),
        "CreateProjectPayload { name: \"No Desc\", description: None }"
    );
}

#[test]
fn get_projects_params_debug_output() {
    let params = GetProjectsParams { page: 2, page_size: 20 };
    assert_eq!(format!("{:?}", params), "GetProjectsParams { page: 2, page_size: 20 }");
}

struct CountingRepository(usize);

impl ProjectRepository for CountingRepository {
    fn create_project(&mut self, name: &str, description: Option<&str>) -> Result<Project, RepositoryError> {
        self.0 += 1;
        MockProjectRepository.create_project(name, description)
    }

    fn get_projects(&mut self, page: Option<i64>, page_size: Option<i64>) -> Result<Vec<Project>, RepositoryError> {
        self.0 += 1;
        MockProjectRepository.get_projects(page, page_size)
    }
}

#[test]
fn rejected_payload_is_not_stored_and_accepted_one_is_stored_once() {
    let mut repo = CountingRepository(0);
    let blank = CreateProjectPayload { name: " ".to_string(), description: Some("d".to_string()) };
    assert!(create_project(&mut repo, &blank).is_err());
    assert_eq!(repo.0, 0);
    let fine = CreateProjectPayload { name: "n".to_string(), description: Some("d".to_string()) };
    assert!(create_project(&mut repo, &fine).is_ok());
    assert_eq!(repo.0, 1);
    assert_eq!(get_projects(&mut repo, &GetProjectsParams { page: 1, page_size: 2 }).unwrap().len(), 2);
    assert_eq!(repo.0, 2);
}
