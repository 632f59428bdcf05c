# sandbox-rs

An HTTP service that runs source snippets of mainstream languages in short-lived Docker
containers. `src/` is the verified library: the language registry and its lookup, the checks
on an execution request, the `docker` command line, the capture of bounded output, the
settings built from environment values and the error answers. `app/` is the service around
it: the HTTP routes and OpenAPI document, reading the environment and parsing the listening
address as a socket address (whose verdict the library turns into the settings' first
error), and running the containers.
