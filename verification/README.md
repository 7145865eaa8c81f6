# agent_server

The verified core of a small agent-execution backend: a REST service for
projects, a store-listing query, a Kafka message broker, a task dispatcher
and a command-line tool.

`src/` holds the logic, proved with Verus:

- `projects`: project records, request payloads, the repository trait and
  the create/list handlers with their validation;
- `listings`: the paging window of the store-listing query;
- `messaging`: pub/sub messages, Kafka client settings, record framing and
  failure reports;
- `dispatch`: the manager and worker state machines of the dispatcher;
- `settings`: configuration files, log levels, session log, pool limits;
- `routes`: the route table;
- `values`, `tables`, `users`, `clock`, `text`, `blocks`: the data model
  and its helpers.

`app/` performs the I/O: the axum server, the PostgreSQL queries, the Kafka
client, the dispatcher's tasks and the command-line entry point.
