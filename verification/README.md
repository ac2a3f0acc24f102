# authguard

A gateway that sits in front of a service: it reads the bearer token of each
request, verifies it against the identity provider's published RSA key set, limits
how many requests each client address may make per window, and lets only members
of the infrastructure group reach the administrative paths.

- `src/` is the library, verified with Verus: header reading and token extraction
  (`utils`), decimal text of counters (`numeric`), key selection and token
  verification (`auth`), the rate-limit decisions (`policy`,
  `middleware::ratelimit`), the request middlewares' decisions (`middleware`), the
  administrative-path rule and upstream addresses (`proxy`), configuration
  (`config`), the login callback's form and cookies (`handler`) and the metrics
  endpoint's reply (`observability`).
- `app/` is the service around it: environment, store commands, key-set fetching,
  HTTP routes, forwarding and metrics.
- `tests/` exercises the library on concrete values.
