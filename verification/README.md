# sheepstor

Keeps static websites up to date: each website's sources are cloned or pulled
from git, built (with Hugo, or copied as they stand) into one of two build
folders, optionally indexed with pagefind, and published by pointing the
website's `public` link at the new build. Builds can be started from the
command line or over HTTP, with a bearer token per website.

- `src/` is the verified library. `job` and `website_registry` hold the state
  machines that decide every outside step of processing or pushing a website
  and of processing all of them; `website`, `git` and `website_builders` give
  the folders and commands; `access` decides on HTTP requests and their
  replies; `cli` reads the site selection; `text` and `utilities` hold path
  joining, splitting and placeholder replacement.
- `app/` is the program: command line, configuration file, HTTP server, and
  the loop that carries out the actions the library asks for.
